//! What clients receive: profiles without private data, figures with the
//! profile that posted them, users without their password.

use crate::domain::figure::{Figure, FigureModel};
use crate::domain::profile::{Profile, ProfileModel};
use crate::domain::user::{User, UserModel};
use crate::domain::IdType;
use crate::text::opt_text;
use vstd::prelude::*;

verus! {

broadcast use vstd::string::group_string_axioms;

/// A profile as shown next to content: id, username and display name.
#[derive(Debug, PartialEq)]
pub struct ProfileDTO {
    pub id: IdType,
    pub username: String,
    pub display_name: Option<String>,
}

/// A profile as shown on its own page: everything but the owning user.
#[derive(Debug, PartialEq)]
pub struct ProfileWithoutUserIdDTO {
    pub id: IdType,
    pub username: String,
    pub display_name: Option<String>,
    pub bio: Option<String>,
    pub banner: Option<String>,
    pub profile_picture: Option<String>,
}

/// A figure with the profile that posted it.
#[derive(Debug, PartialEq)]
pub struct FigureDTO {
    pub id: IdType,
    pub title: String,
    pub description: Option<String>,
    pub width: i32,
    pub height: i32,
    pub url: String,
    pub profile: ProfileDTO,
}

/// A figure with the profile that posted it, as listed when browsing.
#[derive(Debug, PartialEq)]
pub struct FigureWithProfileDTO {
    pub id: IdType,
    pub title: String,
    pub description: Option<String>,
    pub width: i32,
    pub height: i32,
    pub url: String,
    pub profile: ProfileDTO,
}

/// A list of figures.
#[derive(Debug, PartialEq)]
pub struct FiguresDTO {
    figures: Vec<FigureDTO>,
}

/// A list of figures with their profiles.
#[derive(Debug, PartialEq)]
pub struct FiguresWithProfileDTO {
    figures: Vec<FigureWithProfileDTO>,
}

/// A user without the password.
#[derive(Debug, PartialEq)]
pub struct UserDTO {
    pub email: String,
    pub role: String,
    pub id: IdType,
}

impl View for FiguresDTO {
    type V = Seq<FigureDTO>;

    closed spec fn view(&self) -> Seq<FigureDTO> {
        self.figures@
    }
}

impl View for FiguresWithProfileDTO {
    type V = Seq<FigureWithProfileDTO>;

    closed spec fn view(&self) -> Seq<FigureWithProfileDTO> {
        self.figures@
    }
}

impl ProfileDTO {
    /// This DTO shows exactly the public summary of `p`.
    pub open spec fn shows(self, p: ProfileModel) -> bool {
        &&& self.id == p.id
        &&& self.username@ == p.username
        &&& opt_text(self.display_name) == p.display_name
    }

    /// The summary of a profile.
    pub fn from(profile: Profile) -> (dto: ProfileDTO)
        ensures
            dto.shows(profile@),
    {
        ProfileDTO {
            id: profile.get_id(),
            username: profile.get_username().to_string(),
            display_name: profile.get_display_name().clone(),
        }
    }
}

impl ProfileWithoutUserIdDTO {
    /// This DTO shows everything of `p` but the owning user.
    pub open spec fn shows(self, p: ProfileModel) -> bool {
        &&& self.id == p.id
        &&& self.username@ == p.username
        &&& opt_text(self.display_name) == p.display_name
        &&& opt_text(self.bio) == p.bio
        &&& opt_text(self.banner) == p.banner
        &&& opt_text(self.profile_picture) == p.profile_picture
    }

    /// A profile without its owning user.
    pub fn from(profile: Profile) -> (dto: ProfileWithoutUserIdDTO)
        ensures
            dto.shows(profile@),
    {
        ProfileWithoutUserIdDTO {
            id: profile.get_id(),
            username: profile.get_username().to_string(),
            display_name: profile.get_display_name().clone(),
            bio: profile.get_bio().clone(),
            banner: profile.get_banner().clone(),
            profile_picture: profile.get_profile_picture().clone(),
        }
    }
}

impl FigureDTO {
    /// This DTO shows `f` and the summary of `p`.
    pub open spec fn shows(self, f: FigureModel, p: ProfileModel) -> bool {
        &&& self.id == f.id
        &&& self.title@ == f.title
        &&& opt_text(self.description) == f.description
        &&& self.width == f.width
        &&& self.height == f.height
        &&& self.url@ == f.url
        &&& self.profile.shows(p)
    }

    /// A figure together with the summary of its profile.
    pub fn from(figure: Figure, profile: Profile) -> (dto: FigureDTO)
        ensures
            dto.shows(figure@, profile@),
    {
        FigureDTO {
            id: figure.get_id(),
            title: figure.get_title().to_string(),
            description: figure.get_description().cloned(),
            width: figure.get_width(),
            height: figure.get_height(),
            url: figure.get_url().to_string(),
            profile: ProfileDTO::from(profile),
        }
    }
}

impl FigureWithProfileDTO {
    /// This DTO shows `f` and the summary of `p`.
    pub open spec fn shows(self, f: FigureModel, p: ProfileModel) -> bool {
        &&& self.id == f.id
        &&& self.title@ == f.title
        &&& opt_text(self.description) == f.description
        &&& self.width == f.width
        &&& self.height == f.height
        &&& self.url@ == f.url
        &&& self.profile.shows(p)
    }

    /// A figure together with the summary of its profile.
    pub fn from(figure: Figure, profile: Profile) -> (dto: FigureWithProfileDTO)
        ensures
            dto.shows(figure@, profile@),
    {
        FigureWithProfileDTO {
            id: figure.get_id(),
            title: figure.get_title().to_string(),
            description: figure.get_description().cloned(),
            width: figure.get_width(),
            height: figure.get_height(),
            url: figure.get_url().to_string(),
            profile: ProfileDTO::from(profile),
        }
    }
}

impl FiguresDTO {
    /// The list, in the given order.
    pub fn from(figures: Vec<FigureDTO>) -> (dto: FiguresDTO)
        ensures
            dto@ == figures@,
    {
        FiguresDTO { figures }
    }

    /// The figures of the list, in order.
    pub fn into_figures(self) -> (figures: Vec<FigureDTO>)
        ensures
            figures@ == self@,
    {
        self.figures
    }
}

impl FiguresWithProfileDTO {
    /// The list, in the given order.
    pub fn from(figures: Vec<FigureWithProfileDTO>) -> (dto: FiguresWithProfileDTO)
        ensures
            dto@ == figures@,
    {
        FiguresWithProfileDTO { figures }
    }

    /// The figures of the list, in order.
    pub fn into_figures(self) -> (figures: Vec<FigureWithProfileDTO>)
        ensures
            figures@ == self@,
    {
        self.figures
    }
}

impl UserDTO {
    /// This DTO shows `u` without its password.
    pub open spec fn shows(self, u: UserModel) -> bool {
        &&& self.id == u.id
        &&& self.email@ == u.email
        &&& self.role@ == u.role
    }

    /// A user without the password.
    pub fn from(user: User) -> (dto: UserDTO)
        ensures
            dto.shows(user@),
    {
        UserDTO {
            email: user.get_email().to_string(),
            role: user.get_role().to_string(),
            id: user.get_id(),
        }
    }
}

} // verus!
