//! The records that the intranet answers with.

use vstd::prelude::*;
use crate::campus::Location;

verus! {

/// One student of a listing.
#[derive(Debug, Clone)]
pub struct UserEntry {
    pub title: String,
    pub login: String,
    pub nom: String,
    pub prenom: String,
    pub picture: Option<String>,
    pub location: Location,
}

/// One page of a student listing: the size that the server declares for the
/// whole listing, and the students of this page.
#[derive(Debug, Clone)]
pub struct UserEntries {
    pub total: usize,
    pub items: Vec<UserEntry>,
}

#[derive(Debug, Clone, Default)]
pub struct UserDataInfo {
    pub city: Option<UserDataInfoFields>,
    pub telephone: Option<UserDataInfoFields>,
    pub country: Option<UserDataInfoFields>,
    pub birthplace: Option<UserDataInfoFields>,
    pub birthday: Option<UserDataInfoFields>,
    pub facebook: Option<UserDataInfoFields>,
    pub email: Option<UserDataInfoFields>,
}

#[derive(Debug, Clone, Default)]
pub struct UserDataInfoFields {
    pub value: String,
    pub adm: Option<bool>,
    pub public: Option<bool>,
}

#[derive(Debug, Clone, Default)]
pub struct UserDataGroup {
    pub title: String,
    pub name: String,
    pub count: u32,
}

#[derive(Debug, Clone, Default)]
pub struct UserDataGPA {
    pub gpa: String,
    pub cycle: String,
}

#[derive(Debug, Clone, Default)]
pub struct UserDataSpice {
    pub available_spice: Option<String>,
    pub consumed_spice: Option<u32>,
}

#[derive(Debug, Clone, Default)]
pub struct UserBinome {
    pub user: UserBinomeUser,
    pub binomes: Vec<UserBinomeEntry>,
}

#[derive(Debug, Clone, Default)]
pub struct UserBinomeUser {
    pub login: String,
    pub picture: String,
}

#[derive(Debug, Clone, Default)]
pub struct UserBinomeEntry {
    pub login: String,
    pub picture: String,
    pub activities: String,
    pub id_activities: String,
    pub nb_activities: String,
    pub weight: String,
}

#[derive(Debug, Clone, Default)]
pub struct UserSearchResultEntry {
    pub title: Option<String>,
    pub user_type: String,
    pub login: String,
    pub picture_fun: Option<String>,
    pub picture: Option<String>,
    pub course_code: Option<String>,
    pub promo: Option<String>,
    pub course: Option<String>,
}

#[derive(Debug, Clone, Default)]
pub struct AvailableCourseEntry {
    pub students: String,
    pub code: String,
    pub shortcode_school: String,
    pub title: String,
    pub old_title: String,
}

#[derive(Debug, Clone, Default)]
pub struct AvailablePromoEntry {
    pub students: String,
    pub promo: String,
    pub promo_deprecated: String,
}

} // verus!
