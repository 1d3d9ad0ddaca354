//! Records read from the adoption service and the record written for the site.

use vstd::prelude::*;

verus! {

/// The listing of all animals at a shelter.
#[derive(Debug, Clone)]
pub struct AdoptapetResponse {
    pub pets: Vec<AdoptapetPet>,
}

/// One animal as the shelter listing gives it.
#[derive(Debug, Clone)]
pub struct AdoptapetPet {
    pub pet_id: String,
    pub pet_name: String,
    pub species: Option<String>,
    pub primary_breed: Option<String>,
    pub secondary_breed: Option<String>,
    pub age: Option<String>,
    pub sex: Option<String>,
    pub size: Option<String>,
    pub large_results_photo_url: Option<String>,
}

/// The answer of the per-animal detail request.
#[derive(Debug, Clone)]
pub struct PetDetailsResponse {
    pub pet: Option<PetDetails>,
}

/// The detail record of one animal. Each flag is absent, 0 or 1.
#[derive(Debug, Clone)]
pub struct PetDetails {
    pub pet_details_url: Option<String>,
    pub description: Option<String>,
    pub images: Vec<PetImage>,
    pub good_with_cats: Option<u8>,
    pub good_with_dogs: Option<u8>,
    pub good_with_kids: Option<u8>,
    pub housetrained: Option<u8>,
    pub shots_current: Option<u8>,
    pub spayed_neutered: Option<u8>,
    pub special_needs: Option<u8>,
    pub declawed: Option<u8>,
    pub color: Option<String>,
}

/// One image of a detail record.
#[derive(Debug, Clone)]
pub struct PetImage {
    pub original_url: Option<String>,
}

/// The answer of the CDN's dimension request.
#[derive(Debug, Clone)]
pub struct CloudinaryInfoResponse {
    pub input: CloudinaryAssetInfo,
}

/// The dimensions of an image asset, in pixels.
#[derive(Debug, Clone)]
pub struct CloudinaryAssetInfo {
    pub width: u32,
    pub height: u32,
}

/// An image of the output record: its CDN URL and its dimensions in pixels.
/// The aspect ratio that goes with it is `width / height`.
#[derive(Debug, Clone)]
pub struct PhotoMetadata {
    pub original_url: String,
    pub width: u32,
    pub height: u32,
}

/// A compatibility or status label that holds of an animal.
#[derive(Debug, Clone)]
pub struct Attribute {
    pub key: String,
    pub display: String,
}

/// The record written for the site.
#[derive(Debug, Clone)]
pub struct Pet {
    pub id: String,
    pub name: String,
    pub pet_type: String,
    pub breed: Option<String>,
    pub age: Option<String>,
    pub sex: Option<String>,
    pub size: Option<String>,
    pub url: String,
    pub photo_url: Option<String>,
    pub photos: Vec<PhotoMetadata>,
    pub description: Option<String>,
    pub description_html: Option<String>,
    pub description_markdown: Option<String>,
    pub short_description: Option<String>,
    pub color: Option<String>,
    pub attributes: Vec<Attribute>,
}

/// All records of a run, with the time they were gathered.
#[derive(Debug, Clone)]
pub struct PetsData {
    pub pets: Vec<Pet>,
    pub updated_at: String,
}

} // verus!
