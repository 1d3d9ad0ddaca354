use update_pets::attributes::{api_bool, build_attributes};
use update_pets::html::{
    clean_html_description, html_to_markdown, sanitize_html_description, strip_reference_codes,
};
use update_pets::models::{AdoptapetPet, PetDetails, PetImage, PhotoMetadata};
use update_pets::normalize::{
    capitalize_first, combine_breeds, expand_sex, kind_from_lowercase, pet_type_name,
    primary_photo_url, sex_from_lowercase, short_description_folded, short_description_of,
};
use update_pets::urls::{
    build_cloudinary_info_url, build_cloudinary_original_url, extract_cloudinary_image_id,
    extract_high_res_image_url,
};

fn listing(id: &str, name: &str) -> AdoptapetPet {
    AdoptapetPet {
        pet_id: id.to_string(),
        pet_name: name.to_string(),
        species: None,
        primary_breed: None,
        secondary_breed: None,
        age: None,
        sex: None,
        size: None,
        large_results_photo_url: None,
    }
}

fn details() -> PetDetails {
    PetDetails {
        pet_details_url: None,
        description: None,
        images: vec![],
        good_with_cats: None,
        good_with_dogs: None,
        good_with_kids: None,
        housetrained: None,
        shots_current: None,
        spayed_neutered: None,
        special_needs: None,
        declawed: None,
        color: None,
    }
}

fn image(url: &str) -> PetImage {
    PetImage { original_url: Some(url.to_string()) }
}

#[test]
fn test_extract_high_res_url() {
    let url = "https://media.adoptapet.com/image/upload/v123/1268757503";
    let result = extract_high_res_image_url(Some(url));
    assert_eq!(
        result,
        Some("https://media.adoptapet.com/image/upload/c_fill,w_800,h_600,g_auto/f_auto,q_auto/1268757503".to_string())
    );
}

#[test]
fn test_extract_high_res_url_none() {
    assert_eq!(extract_high_res_image_url(None), None);
    assert_eq!(extract_high_res_image_url(Some("")), None);
}

#[test]
fn test_capitalize_first() {
    assert_eq!(capitalize_first("adult"), "Adult");
    assert_eq!(capitalize_first(""), "");
    assert_eq!(capitalize_first("PUPPY"), "PUPPY");
}

#[test]
fn high_res_of_blank_url_is_none() {
    assert_eq!(extract_high_res_image_url(Some(" ")), None);
    assert_eq!(extract_high_res_image_url(Some("\t\n")), None);
}

#[test]
fn high_res_without_asset_id_keeps_url_unchanged() {
    assert_eq!(
        extract_high_res_image_url(Some(" https://x.org/a/ ")),
        Some(" https://x.org/a/ ".to_string())
    );
    assert_eq!(
        extract_high_res_image_url(Some("https://x.org/a/.jpg")),
        Some("https://x.org/a/.jpg".to_string())
    );
}

#[test]
fn asset_id_drops_extension_and_whitespace() {
    assert_eq!(extract_cloudinary_image_id(" https://x.org/a/b/42.jpg.png "), Some("42"));
    assert_eq!(extract_cloudinary_image_id("plain"), Some("plain"));
    assert_eq!(extract_cloudinary_image_id(""), None);
    assert_eq!(extract_cloudinary_image_id("   "), None);
    assert_eq!(extract_cloudinary_image_id("https://x.org/a/"), None);
}

#[test]
fn derived_urls_end_with_same_asset_id() {
    let url = "https://pet-uploads.adoptapet.com/7/c/9/1268757503.jpg";
    let high = extract_high_res_image_url(Some(url)).unwrap();
    let info = build_cloudinary_info_url(url).unwrap();
    let original = build_cloudinary_original_url(url).unwrap();
    assert_eq!(info, "https://media.adoptapet.com/image/upload/fl_getinfo/1268757503");
    assert_eq!(original, "https://media.adoptapet.com/image/upload/f_auto,q_auto/1268757503");
    assert!(high.ends_with("/1268757503"));
    assert!(info.ends_with("/1268757503"));
    assert!(original.ends_with("/1268757503"));
    assert_eq!(build_cloudinary_info_url(""), None);
    assert_eq!(build_cloudinary_original_url("https://x.org/"), None);
}

#[test]
fn reference_codes_are_stripped() {
    assert_eq!(strip_reference_codes("Hello ##123## world"), "Hello  world");
    assert_eq!(sanitize_html_description("Hello ##123## world"), "Hello  world");
    assert_eq!(clean_html_description("Hello ##123## world"), "Hello world");
    assert_eq!(sanitize_html_description("  ## 1## <p>x</p> "), "## 1## <p>x</p>");
    assert_eq!(sanitize_html_description("<p>Hi ##7##</p>"), "<p>Hi </p>");
}

#[test]
fn plain_text_decodes_entities_and_drops_tags() {
    assert_eq!(
        clean_html_description("<p>Tom &amp; Jerry</p>\n<p>  are   friends</p>"),
        "Tom & Jerry are friends"
    );
    assert_eq!(clean_html_description(""), "");
}

#[test]
fn markdown_paragraphs_get_one_blank_line() {
    assert_eq!(
        html_to_markdown("<p>Loves walks.</p><p>Good boy ##9##</p>"),
        Some("Loves walks.\n\nGood boy".to_string())
    );
    assert_eq!(html_to_markdown("plain"), Some("plain".to_string()));
}

#[test]
fn short_description_truncates_long_text() {
    let text: String = "abcdefghij".repeat(25);
    assert_eq!(text.chars().count(), 250);
    let short = short_description_of(&text);
    assert_eq!(short, format!("{}...", &text[..200]));
    assert_eq!(short.chars().count(), 203);
}

#[test]
fn short_description_splits_at_email_request() {
    assert_eq!(
        short_description_of("Loves walks. Please email shelter@x.org for info"),
        "Loves walks."
    );
    assert_eq!(short_description_of("please email us"), "please email us");
    assert_eq!(short_description_of("Short one"), "Short one");
}

#[test]
fn attributes_keep_order_and_skip_unset() {
    let mut d = details();
    d.good_with_dogs = Some(1);
    d.housetrained = Some(1);
    d.good_with_cats = Some(0);
    d.declawed = Some(2);
    let attrs = build_attributes(Some(&d));
    let keys: Vec<&str> = attrs.iter().map(|a| a.key.as_str()).collect();
    assert_eq!(keys, vec!["good_with_dogs", "housetrained"]);
    assert_eq!(attrs[0].display, "Good with dogs");
    assert_eq!(attrs[1].display, "Housetrained");
    assert!(build_attributes(None).is_empty());
}

#[test]
fn all_attributes_in_fixed_order() {
    let mut d = details();
    d.good_with_cats = Some(1);
    d.good_with_dogs = Some(1);
    d.good_with_kids = Some(1);
    d.housetrained = Some(1);
    d.shots_current = Some(1);
    d.spayed_neutered = Some(1);
    d.special_needs = Some(1);
    d.declawed = Some(1);
    let displays: Vec<String> = build_attributes(Some(&d)).into_iter().map(|a| a.display).collect();
    assert_eq!(
        displays,
        vec![
            "Good with cats", "Good with dogs", "Good with kids", "Housetrained",
            "Shots current", "Spayed/Neutered", "Special needs", "Declawed"
        ]
    );
}

#[test]
fn api_bool_is_true_only_for_one() {
    assert_eq!(api_bool(Some(1)), Some(true));
    assert_eq!(api_bool(Some(0)), Some(false));
    assert_eq!(api_bool(Some(5)), Some(false));
    assert_eq!(api_bool(None), None);
}

#[test]
fn type_breed_and_sex_rules() {
    assert_eq!(pet_type_name(Some("DOG")), "Dog");
    assert_eq!(pet_type_name(Some("cat")), "Cat");
    assert_eq!(pet_type_name(Some("RABBIT")), "Rabbit");
    assert_eq!(pet_type_name(None), "Other");
    assert_eq!(combine_breeds(Some("Lab"), Some("Poodle")), Some("Lab / Poodle".to_string()));
    assert_eq!(combine_breeds(Some("Unknown Type"), Some("Poodle")), Some("Poodle".to_string()));
    assert_eq!(combine_breeds(Some(" "), None), None);
    assert_eq!(combine_breeds(Some("Lab (Unknown Type)"), None), Some("Lab (Unknown Type)".to_string()));
    assert_eq!(combine_breeds(Some("Lab"), Some("")), Some("Lab".to_string()));
    assert_eq!(expand_sex(Some("M")), Some("Male".to_string()));
    assert_eq!(expand_sex(Some("f")), Some("Female".to_string()));
    assert_eq!(expand_sex(Some("unknown")), Some("unknown".to_string()));
    assert_eq!(expand_sex(Some("")), None);
    assert_eq!(expand_sex(None), None);
}

#[test]
fn photo_prefers_detail_image_and_rejects_placeholder() {
    let mut d = details();
    d.images = vec![image("https://x.org/v1/555.jpg"), image("https://x.org/v1/666.jpg")];
    assert_eq!(
        primary_photo_url(Some(&d), Some("https://low.org/1.jpg")),
        Some("https://media.adoptapet.com/image/upload/c_fill,w_800,h_600,g_auto/f_auto,q_auto/555".to_string())
    );
    assert_eq!(primary_photo_url(None, Some("https://low.org/1.jpg")), Some("https://low.org/1.jpg".to_string()));
    assert_eq!(primary_photo_url(None, Some("https://low.org/null")), None);
    let mut e = details();
    e.images = vec![image("https://x.org/null/")];
    assert_eq!(primary_photo_url(Some(&e), Some("https://low.org/2.jpg")), None);
    assert_eq!(primary_photo_url(None, None), None);
}

#[test]
fn original_image_urls_skip_missing_and_placeholders() {
    let pet = listing("1", "Rex");
    let mut d = details();
    d.images = vec![
        image("https://x.org/a/1.jpg"),
        PetImage { original_url: None },
        image("https://x.org/null"),
        image("https://x.org/a/2.jpg"),
    ];
    assert_eq!(
        pet.get_original_image_urls(Some(&d)),
        vec!["https://x.org/a/1.jpg", "https://x.org/a/2.jpg"]
    );
    assert!(pet.get_original_image_urls(None).is_empty());
}

#[test]
fn end_to_end_without_details() {
    let mut pet = listing("1", "Rex");
    pet.species = Some("dog".to_string());
    pet.sex = Some("m".to_string());
    pet.age = Some("puppy".to_string());
    let out = pet.into_pet(None, vec![]);
    assert_eq!(out.id, "1");
    assert_eq!(out.name, "Rex");
    assert_eq!(out.pet_type, "Dog");
    assert_eq!(out.sex, Some("Male".to_string()));
    assert_eq!(out.age, Some("Puppy".to_string()));
    assert_eq!(out.url, "https://www.adoptapet.com/pet/1");
    assert_eq!(out.photo_url, None);
    assert_eq!(out.breed, None);
    assert_eq!(out.description, None);
    assert_eq!(out.description_html, None);
    assert_eq!(out.description_markdown, None);
    assert_eq!(out.short_description, None);
    assert_eq!(out.color, None);
    assert!(out.attributes.is_empty());
    assert!(out.photos.is_empty());
}

#[test]
fn end_to_end_with_details() {
    let mut pet = listing("9", "Mia");
    pet.species = Some("Cat".to_string());
    pet.primary_breed = Some("Tabby".to_string());
    pet.size = Some("Small".to_string());
    let mut d = details();
    d.pet_details_url = Some("https://www.adoptapet.com/pet/9-mia".to_string());
    d.description = Some("<p>Sweet ##42## cat. Please email a@b.org</p>".to_string());
    d.images = vec![image("https://x.org/v1/77.jpg")];
    d.color = Some("Grey".to_string());
    d.shots_current = Some(1);
    let photos = vec![PhotoMetadata {
        original_url: "https://media.adoptapet.com/image/upload/f_auto,q_auto/77".to_string(),
        width: 800,
        height: 600,
    }];
    let out = pet.into_pet(Some(&d), photos);
    assert_eq!(out.pet_type, "Cat");
    assert_eq!(out.breed, Some("Tabby".to_string()));
    assert_eq!(out.size, Some("Small".to_string()));
    assert_eq!(out.url, "https://www.adoptapet.com/pet/9-mia");
    assert_eq!(
        out.photo_url,
        Some("https://media.adoptapet.com/image/upload/c_fill,w_800,h_600,g_auto/f_auto,q_auto/77".to_string())
    );
    assert_eq!(out.description, Some("Sweet cat. Please email a@b.org".to_string()));
    assert_eq!(out.description_html, Some("<p>Sweet  cat. Please email a@b.org</p>".to_string()));
    assert_eq!(out.short_description, Some("Sweet cat.".to_string()));
    assert_eq!(out.color, Some("Grey".to_string()));
    assert_eq!(out.attributes.len(), 1);
    assert_eq!(out.attributes[0].key, "shots_current");
    assert_eq!(out.photos.len(), 1);
    assert_eq!(out.photos[0].width, 800);
}

#[test]
fn normalizing_twice_gives_identical_records() {
    let mut pet = listing("3", "Bo");
    pet.species = Some("bird".to_string());
    pet.age = Some("senior".to_string());
    let mut d = details();
    d.description = Some("<b>Chirpy</b> &lt;3".to_string());
    d.good_with_kids = Some(1);
    let a = pet.clone().into_pet(Some(&d), vec![]);
    let b = pet.into_pet(Some(&d), vec![]);
    assert_eq!(format!("{:?}", a), format!("{:?}", b));
    assert_eq!(a.pet_type, "Bird");
    assert_eq!(a.description, Some("Chirpy <3".to_string()));
}

#[test]
fn rules_on_lowercased_text() {
    assert_eq!(kind_from_lowercase("dog"), "Dog");
    assert_eq!(kind_from_lowercase("cat"), "Cat");
    assert_eq!(kind_from_lowercase("rabbit"), "Rabbit");
    assert_eq!(kind_from_lowercase(""), "");
    assert_eq!(sex_from_lowercase("m"), Some("Male".to_string()));
    assert_eq!(sex_from_lowercase("f"), Some("Female".to_string()));
    assert_eq!(sex_from_lowercase("x"), Some("x".to_string()));
    assert_eq!(sex_from_lowercase(""), None);
    assert_eq!(
        short_description_folded("Loves walks. PLEASE EMAIL x@y.org", "loves walks. please email x@y.org"),
        "Loves walks."
    );
    assert_eq!(short_description_folded("please email", "please email"), "please email");
}
