//! One output record from a listing record, its detail record and its photos.

use vstd::prelude::*;
use vstd::string::StringExecFns;
use crate::attributes::{attributes_of, attributes_view, build_attributes};
use crate::html::{
    clean_html_description, html_to_markdown, markdown_text, plain_text, sanitize_html_description,
    without_codes,
};
use crate::models::{AdoptapetPet, PetDetails, PetImage, Pet, PhotoMetadata};
use crate::text::{
    contains, find_chars, first_index, from_chars, lowercase_of, opt_as_str, str_contains, str_opt,
    string_opt, to_chars, to_lower, trim, trim_str, upper_of_char, uppercase_of,
};
use crate::urls::{extract_high_res_image_url, high_res};

verus! {

/// The fragment of an image URL that marks a missing photo.
pub const NO_PHOTO: &'static str = "/null";

/// The breed the service gives where it knows none.
pub const UNKNOWN_BREED: &'static str = "Unknown Type";

/// What stands between the primary and the secondary breed.
pub const BREED_SEPARATOR: &'static str = " / ";

/// Prefix of an animal's page where the detail record gives none.
pub const PET_PAGE_BASE: &'static str = "https://www.adoptapet.com/pet/";

/// Where a description turns to contact details, in lower case.
pub const EMAIL_MARKER: &'static str = "please email";

/// The longest short description kept whole, in characters.
pub const SHORT_LIMIT: usize = 200;

/// What marks a cut short description.
pub const ELLIPSIS: &'static str = "...";

/// The output record in mathematical terms.
pub struct PetView {
    pub id: Seq<char>,
    pub name: Seq<char>,
    pub pet_type: Seq<char>,
    pub breed: Option<Seq<char>>,
    pub age: Option<Seq<char>>,
    pub sex: Option<Seq<char>>,
    pub size: Option<Seq<char>>,
    pub url: Seq<char>,
    pub photo_url: Option<Seq<char>>,
    pub photos: Seq<PhotoMetadata>,
    pub description: Option<Seq<char>>,
    pub description_html: Option<Seq<char>>,
    pub description_markdown: Option<Seq<char>>,
    pub short_description: Option<Seq<char>>,
    pub color: Option<Seq<char>>,
    pub attributes: Seq<(Seq<char>, Seq<char>)>,
}

impl View for Pet {
    type V = PetView;

    open spec fn view(&self) -> PetView {
        PetView {
            id: self.id@,
            name: self.name@,
            pet_type: self.pet_type@,
            breed: string_opt(self.breed),
            age: string_opt(self.age),
            sex: string_opt(self.sex),
            size: string_opt(self.size),
            url: self.url@,
            photo_url: string_opt(self.photo_url),
            photos: self.photos@,
            description: string_opt(self.description),
            description_html: string_opt(self.description_html),
            description_markdown: string_opt(self.description_markdown),
            short_description: string_opt(self.short_description),
            color: string_opt(self.color),
            attributes: attributes_view(self.attributes@),
        }
    }
}

/// `s` with its first character mapped to upper case.
pub open spec fn capitalized(s: Seq<char>) -> Seq<char> {
    if s.len() == 0 {
        s
    } else {
        uppercase_of(s[0]) + s.drop_first()
    }
}

/// The type of an animal: "Dog", "Cat", the lower-cased species capitalized,
/// or "Other" where the species is absent.
pub open spec fn kind_name(species: Option<Seq<char>>) -> Seq<char> {
    match species {
        None => "Other"@,
        Some(s) => kind_of_lowercase(lowercase_of(s)),
    }
}

/// The type of an animal from its lower-cased species: "Dog", "Cat", or the
/// species capitalized.
pub open spec fn kind_of_lowercase(l: Seq<char>) -> Seq<char> {
    if l == "dog"@ {
        "Dog"@
    } else if l == "cat"@ {
        "Cat"@
    } else {
        capitalized(l)
    }
}

/// A breed that is present, not blank and not the unknown placeholder.
pub open spec fn usable_breed(b: Option<Seq<char>>) -> bool {
    b is Some && trim(b->0).len() > 0 && b->0 != UNKNOWN_BREED@
}

/// The usable breeds, primary first, joined by the separator; none if neither is usable.
pub open spec fn breed_name(p: Option<Seq<char>>, s: Option<Seq<char>>) -> Option<Seq<char>> {
    if usable_breed(p) && usable_breed(s) {
        Some(p->0 + BREED_SEPARATOR@ + s->0)
    } else if usable_breed(p) {
        Some(p->0)
    } else if usable_breed(s) {
        Some(s->0)
    } else {
        None
    }
}

/// The sex code lower-cased, "m" and "f" spelt out; none where it is absent or empty.
pub open spec fn sex_name(sex: Option<Seq<char>>) -> Option<Seq<char>> {
    match sex {
        None => None,
        Some(s) => sex_of_lowercase(lowercase_of(s)),
    }
}

/// The sex from its lower-cased code: "m" and "f" spelt out, any other
/// non-empty code as it is, none for an empty one.
pub open spec fn sex_of_lowercase(l: Seq<char>) -> Option<Seq<char>> {
    if l == "m"@ {
        Some("Male"@)
    } else if l == "f"@ {
        Some("Female"@)
    } else if l.len() > 0 {
        Some(l)
    } else {
        None
    }
}

/// The age capitalized, where present.
pub open spec fn age_name(age: Option<Seq<char>>) -> Option<Seq<char>> {
    match age {
        Some(a) => Some(capitalized(a)),
        None => None,
    }
}

/// The display URL of the first image of the detail record, if any.
pub open spec fn first_image_url(details: Option<&PetDetails>) -> Option<Seq<char>> {
    match details {
        Some(d) => if d.images@.len() > 0 {
            high_res(string_opt(d.images@[0].original_url))
        } else {
            None
        },
        None => None,
    }
}

/// The primary photo: the first detail image's display URL, else the
/// listing's photo; none where the one chosen marks a missing photo.
pub open spec fn photo_choice(details: Option<&PetDetails>, listing_photo: Option<Seq<char>>) -> Option<
    Seq<char>,
> {
    let chosen = match first_image_url(details) {
        Some(u) => Some(u),
        None => listing_photo,
    };
    match chosen {
        Some(u) => if contains(u, NO_PHOTO@) {
            None
        } else {
            Some(u)
        },
        None => None,
    }
}

/// The short form of a plain-text description: the trimmed text before the
/// first "please email" (in any case) where that is not at the start; else
/// the first 200 characters trimmed and an ellipsis where it is longer; else
/// the whole text.
pub open spec fn short_text(d: Seq<char>) -> Seq<char> {
    short_text_folded(d, lowercase_of(d))
}

/// The short form of a plain-text description `d`, given its lower-cased
/// form `l`: the trimmed text of `d` before the first "please email" in `l`
/// where that is not at the start; else the first 200 characters of `d`
/// trimmed and an ellipsis where it is longer; else `d` whole.
pub open spec fn short_text_folded(d: Seq<char>, l: Seq<char>) -> Seq<char> {
    let f = first_index(l, EMAIL_MARKER@);
    if f is Some && 0 < f->0 <= d.len() {
        trim(d.subrange(0, f->0))
    } else if d.len() > SHORT_LIMIT {
        trim(d.subrange(0, SHORT_LIMIT as int)) + ELLIPSIS@
    } else {
        d
    }
}

/// The raw HTML description of a detail record, if any.
pub open spec fn raw_description(details: Option<&PetDetails>) -> Option<Seq<char>> {
    match details {
        Some(d) => string_opt(d.description),
        None => None,
    }
}

/// `f` applied to the value of `o`, if any.
pub open spec fn map_text(o: Option<Seq<char>>, f: spec_fn(Seq<char>) -> Seq<char>) -> Option<Seq<char>> {
    match o {
        Some(t) => Some(f(t)),
        None => None,
    }
}

/// The Markdown description, where there is a raw one and it converts.
pub open spec fn markdown_description(details: Option<&PetDetails>) -> Option<Seq<char>> {
    match raw_description(details) {
        Some(h) => markdown_text(h),
        None => None,
    }
}

/// The animal's page: the detail record's URL, else the default built on the id.
pub open spec fn page_url(details: Option<&PetDetails>, id: Seq<char>) -> Seq<char> {
    match details {
        Some(d) => match d.pet_details_url {
            Some(u) => u@,
            None => PET_PAGE_BASE@ + id,
        },
        None => PET_PAGE_BASE@ + id,
    }
}

/// The color of the detail record, if any.
pub open spec fn color_of(details: Option<&PetDetails>) -> Option<Seq<char>> {
    match details {
        Some(d) => string_opt(d.color),
        None => None,
    }
}

/// The output record for a listing record, its detail record and its photos.
pub open spec fn normalized(
    pet: AdoptapetPet,
    details: Option<&PetDetails>,
    photos: Seq<PhotoMetadata>,
) -> PetView {
    let description = map_text(raw_description(details), |h: Seq<char>| plain_text(h));
    PetView {
        id: pet.pet_id@,
        name: pet.pet_name@,
        pet_type: kind_name(string_opt(pet.species)),
        breed: breed_name(string_opt(pet.primary_breed), string_opt(pet.secondary_breed)),
        age: age_name(string_opt(pet.age)),
        sex: sex_name(string_opt(pet.sex)),
        size: string_opt(pet.size),
        url: page_url(details, pet.pet_id@),
        photo_url: photo_choice(details, string_opt(pet.large_results_photo_url)),
        photos: photos,
        description: description,
        description_html: map_text(raw_description(details), |h: Seq<char>| without_codes(h)),
        description_markdown: markdown_description(details),
        short_description: map_text(description, |d: Seq<char>| short_text(d)),
        color: color_of(details),
        attributes: attributes_of(details),
    }
}

/// The image URLs of a list of images that are present and do not mark a missing photo.
pub open spec fn usable_urls(imgs: Seq<PetImage>) -> Seq<Seq<char>>
    decreases imgs.len(),
{
    if imgs.len() == 0 {
        seq![]
    } else {
        let rest = usable_urls(imgs.drop_last());
        let u = imgs.last().original_url;
        if u is Some && !contains(u->0@, NO_PHOTO@) {
            rest.push(u->0@)
        } else {
            rest
        }
    }
}

/// Running a normalization twice on the same inputs gives the same record,
/// character for character.
pub proof fn lemma_normalize_deterministic(
    pet: AdoptapetPet,
    details: Option<&PetDetails>,
    photos: Seq<PhotoMetadata>,
    first: Pet,
    second: Pet,
)
    requires
        first@ == normalized(pet, details, photos),
        second@ == normalized(pet, details, photos),
    ensures
        first@ == second@,
{
}

/// `s` with its first character mapped to upper case.
pub fn capitalize_first(s: &str) -> (r: String)
    ensures
        r@ == capitalized(s@),
{
    let v = to_chars(s);
    if v.len() == 0 {
        return String::new();
    }
    let first = upper_of_char(v[0]);
    let rest = from_chars(&v, 1, v.len());
    assert(rest@ =~= s@.drop_first());
    first.concat(rest.as_str())
}

/// The type of an animal from its species.
pub fn pet_type_name(species: Option<&str>) -> (r: String)
    ensures
        r@ == kind_name(str_opt(species)),
{
    match species {
        None => String::from_str("Other"),
        Some(s) => {
            let lower = to_lower(s);
            kind_from_lowercase(lower.as_str())
        },
    }
}

/// The type of an animal from its lower-cased species.
pub fn kind_from_lowercase(lower: &str) -> (r: String)
    ensures
        r@ == kind_of_lowercase(lower@),
{
    let l = String::from_str(lower);
    if l == String::from_str("dog") {
        String::from_str("Dog")
    } else if l == String::from_str("cat") {
        String::from_str("Cat")
    } else {
        capitalize_first(lower)
    }
}

/// Whether a breed is present, not blank and not the unknown placeholder.
fn is_usable_breed(b: Option<&str>) -> (r: bool)
    ensures
        r == usable_breed(str_opt(b)),
{
    match b {
        None => false,
        Some(s) => {
            let t = trim_str(s);
            !t.as_str().is_empty() && String::from_str(s) != String::from_str(UNKNOWN_BREED)
        },
    }
}

/// The primary and secondary breed joined, leaving out unusable ones.
pub fn combine_breeds(primary: Option<&str>, secondary: Option<&str>) -> (r: Option<String>)
    ensures
        string_opt(r) == breed_name(str_opt(primary), str_opt(secondary)),
{
    let p_ok = is_usable_breed(primary);
    let s_ok = is_usable_breed(secondary);
    match (primary, secondary) {
        (Some(p), Some(s)) if p_ok && s_ok => Some(
            String::from_str(p).concat(BREED_SEPARATOR).concat(s),
        ),
        (Some(p), _) if p_ok => Some(String::from_str(p)),
        (_, Some(s)) if s_ok => Some(String::from_str(s)),
        _ => None,
    }
}

/// The sex of an animal spelt out from its code.
pub fn expand_sex(sex: Option<&str>) -> (r: Option<String>)
    ensures
        string_opt(r) == sex_name(str_opt(sex)),
{
    match sex {
        None => None,
        Some(s) => {
            let lower = to_lower(s);
            sex_from_lowercase(lower.as_str())
        },
    }
}

/// The sex spelt out from its lower-cased code.
pub fn sex_from_lowercase(lower: &str) -> (r: Option<String>)
    ensures
        string_opt(r) == sex_of_lowercase(lower@),
{
    let l = String::from_str(lower);
    if l == String::from_str("m") {
        Some(String::from_str("Male"))
    } else if l == String::from_str("f") {
        Some(String::from_str("Female"))
    } else if !lower.is_empty() {
        Some(l)
    } else {
        None
    }
}

/// The short form of a plain-text description.
pub fn short_description_of(desc: &str) -> (r: String)
    ensures
        r@ == short_text(desc@),
{
    let lower = to_lower(desc);
    short_description_folded(desc, lower.as_str())
}

/// The short form of a plain-text description, given its lower-cased form.
pub fn short_description_folded(desc: &str, lower: &str) -> (r: String)
    ensures
        r@ == short_text_folded(desc@, lower@),
{
    let v = to_chars(desc);
    let lv = to_chars(lower);
    let marker = to_chars(EMAIL_MARKER);
    match find_chars(&lv, &marker) {
        Some(i) => {
            if 0 < i && i <= v.len() {
                let before = from_chars(&v, 0, i);
                return trim_str(before.as_str());
            }
        },
        None => {},
    }
    if v.len() > SHORT_LIMIT {
        let head = from_chars(&v, 0, SHORT_LIMIT);
        trim_str(head.as_str()).concat(ELLIPSIS)
    } else {
        String::from_str(desc)
    }
}

/// The primary photo URL of an animal.
pub fn primary_photo_url(details: Option<&PetDetails>, listing_photo: Option<&str>) -> (r: Option<
    String,
>)
    ensures
        string_opt(r) == photo_choice(details, str_opt(listing_photo)),
        r matches Some(u) ==> !contains(u@, NO_PHOTO@),
{
    let high = match details {
        Some(d) => if d.images.len() > 0 {
            extract_high_res_image_url(opt_as_str(&d.images[0].original_url))
        } else {
            None
        },
        None => None,
    };
    let chosen = match high {
        Some(u) => Some(u),
        None => match listing_photo {
            Some(u) => Some(String::from_str(u)),
            None => None,
        },
    };
    match chosen {
        Some(u) => if str_contains(u.as_str(), NO_PHOTO) {
            None
        } else {
            Some(u)
        },
        None => None,
    }
}

/// The page of an animal.
pub fn canonical_url(details: Option<&PetDetails>, id: &str) -> (r: String)
    ensures
        r@ == page_url(details, id@),
{
    match details {
        Some(d) => match &d.pet_details_url {
            Some(u) => u.clone(),
            None => String::from_str(PET_PAGE_BASE).concat(id),
        },
        None => String::from_str(PET_PAGE_BASE).concat(id),
    }
}

impl AdoptapetPet {
    /// The image URLs of the detail record that are present and do not mark a
    /// missing photo, in order; none without a detail record.
    pub fn get_original_image_urls<'a>(&'a self, details: Option<&'a PetDetails>) -> (r: Vec<
        &'a str,
    >)
        ensures
            r@.map_values(|u: &str| u@) == match details {
                Some(d) => usable_urls(d.images@),
                None => seq![],
            },
    {
        let mut out: Vec<&'a str> = Vec::new();
        match details {
            None => {
                assert(out@.map_values(|u: &str| u@) =~= seq![]);
            },
            Some(d) => {
                let mut i: usize = 0;
                while i < d.images.len()
                    invariant
                        i <= d.images@.len(),
                        out@.map_values(|u: &str| u@) == usable_urls(
                            d.images@.subrange(0, i as int),
                        ),
                    decreases d.images@.len() - i,
                {
                    assert(d.images@.subrange(0, i + 1).drop_last() =~= d.images@.subrange(
                        0,
                        i as int,
                    ));
                    match &d.images[i].original_url {
                        Some(u) => {
                            if !str_contains(u.as_str(), NO_PHOTO) {
                                out.push(u.as_str());
                                assert(out@.map_values(|u: &str| u@) =~= usable_urls(
                                    d.images@.subrange(0, i as int),
                                ).push(u@));
                            }
                        },
                        None => {},
                    }
                    i = i + 1;
                }
                assert(d.images@.subrange(0, d.images@.len() as int) =~= d.images@);
            },
        }
        out
    }

    /// The output record for this listing record, its detail record and the
    /// metadata of its photos.
    pub fn into_pet(self, details: Option<&PetDetails>, photos: Vec<PhotoMetadata>) -> (r: Pet)
        ensures
            r@ == normalized(self, details, photos@),
            r.photo_url matches Some(u) ==> !contains(u@, NO_PHOTO@),
    {
        let photo_url = primary_photo_url(details, opt_as_str(&self.large_results_photo_url));
        let pet_type = pet_type_name(opt_as_str(&self.species));
        let breed = combine_breeds(opt_as_str(&self.primary_breed), opt_as_str(&self.secondary_breed));
        let sex = expand_sex(opt_as_str(&self.sex));
        let age = match &self.age {
            Some(a) => Some(capitalize_first(a.as_str())),
            None => None,
        };
        let raw = match details {
            Some(d) => opt_as_str(&d.description),
            None => None,
        };
        let description = match raw {
            Some(h) => Some(clean_html_description(h)),
            None => None,
        };
        let description_html = match raw {
            Some(h) => Some(sanitize_html_description(h)),
            None => None,
        };
        let description_markdown = match raw {
            Some(h) => html_to_markdown(h),
            None => None,
        };
        let short_description = match &description {
            Some(d) => Some(short_description_of(d.as_str())),
            None => None,
        };
        let url = canonical_url(details, self.pet_id.as_str());
        let attributes = build_attributes(details);
        let color = match details {
            Some(d) => d.color.clone(),
            None => None,
        };
        Pet {
            id: self.pet_id,
            name: self.pet_name,
            pet_type,
            breed,
            age,
            sex,
            size: self.size,
            url,
            photo_url,
            photos,
            description,
            description_html,
            description_markdown,
            short_description,
            color,
            attributes,
        }
    }
}

} // verus!
