//! Figures: uploaded images with a title and a description.

use crate::domain::IdType;
use crate::error::ServerError;
use crate::text::opt_text;
use vstd::prelude::*;

verus! {

/// The largest sum of width and height a figure may have, in pixels.
pub const MAX_DIMENSIONS_SUM: u32 = 6000;

/// A figure posted by a profile.
#[derive(Debug)]
pub struct Figure {
    id: IdType,
    title: String,
    description: Option<String>,
    width: i32,
    height: i32,
    url: String,
    profile_id: IdType,
}

/// What a figure holds.
pub struct FigureModel {
    pub id: IdType,
    pub title: Seq<char>,
    pub description: Option<Seq<char>>,
    pub width: i32,
    pub height: i32,
    pub url: Seq<char>,
    pub profile_id: IdType,
}

impl View for Figure {
    type V = FigureModel;

    closed spec fn view(&self) -> FigureModel {
        FigureModel {
            id: self.id,
            title: self.title@,
            description: opt_text(self.description),
            width: self.width,
            height: self.height,
            url: self.url@,
            profile_id: self.profile_id,
        }
    }
}

/// The value a signed dimension has once read as unsigned (two's complement).
pub open spec fn unsigned_of(x: i32) -> int {
    if x >= 0 {
        x as int
    } else {
        x + 0x1_0000_0000
    }
}

/// The outcome of checking dimensions: too large when width and height sum to
/// more than 6000.
pub open spec fn size_check(width: int, height: int) -> Result<(), ServerError> {
    if width + height > MAX_DIMENSIONS_SUM {
        Err(ServerError::ImageDimensionsTooLarge)
    } else {
        Ok(())
    }
}

/// The model of a figure built from its parts.
pub open spec fn figure_model(
    id: IdType,
    title: String,
    description: Option<String>,
    width: i32,
    height: i32,
    url: String,
    profile_id: IdType,
) -> FigureModel {
    FigureModel {
        id,
        title: title@,
        description: opt_text(description),
        width,
        height,
        url: url@,
        profile_id,
    }
}

fn as_unsigned(x: i32) -> (u: u32)
    ensures
        u as int == unsigned_of(x),
{
    if x >= 0 {
        x as u32
    } else {
        let u = x as u32;
        assert(x < 0 ==> (x as u32) as int == x + 0x1_0000_0000) by (bit_vector);
        u
    }
}

impl Figure {
    /// A figure whose dimensions were checked; the signed dimensions are read as
    /// unsigned for the check.
    pub fn new(
        id: IdType,
        title: String,
        description: Option<String>,
        width: i32,
        height: i32,
        url: String,
        profile_id: IdType,
    ) -> (result: Result<Figure, ServerError>)
        requires
            unsigned_of(width) + unsigned_of(height) <= u32::MAX,
        ensures
            match result {
                Ok(figure) => size_check(unsigned_of(width), unsigned_of(height)) is Ok
                    && figure@ == figure_model(id, title, description, width, height, url, profile_id),
                Err(e) => size_check(unsigned_of(width), unsigned_of(height)) == Err::<(), ServerError>(e),
            },
    {
        match Self::check_size(as_unsigned(width), as_unsigned(height)) {
            Ok(()) => Ok(Figure { id, title, description, width, height, url, profile_id }),
            Err(e) => Err(e),
        }
    }

    /// A figure built without checks.
    pub fn new_raw(
        id: IdType,
        title: String,
        description: Option<String>,
        width: i32,
        height: i32,
        url: String,
        profile_id: IdType,
    ) -> (figure: Figure)
        ensures
            figure@ == figure_model(id, title, description, width, height, url, profile_id),
    {
        Figure { id, title, description, width, height, url, profile_id }
    }

    /// `check_size` on the dimensions read as unsigned.
    pub fn check_size_i32(width: i32, height: i32) -> (result: Result<(), ServerError>)
        requires
            unsigned_of(width) + unsigned_of(height) <= u32::MAX,
        ensures
            result == size_check(unsigned_of(width), unsigned_of(height)),
            result is Ok <==> unsigned_of(width) + unsigned_of(height) <= 6000,
    {
        let result = Self::check_size(as_unsigned(width), as_unsigned(height));
        proof { lemma_size_limit(unsigned_of(width), unsigned_of(height)); }
        result
    }

    /// Refuses dimensions whose sum exceeds 6000.
    pub fn check_size(width: u32, height: u32) -> (result: Result<(), ServerError>)
        requires
            width + height <= u32::MAX,
        ensures
            result == size_check(width as int, height as int),
            result is Ok <==> width + height <= 6000,
            result is Err ==> result == Err::<(), ServerError>(ServerError::ImageDimensionsTooLarge),
    {
        if width + height > MAX_DIMENSIONS_SUM {
            return Err(ServerError::ImageDimensionsTooLarge);
        }
        Ok(())
    }

    pub fn get_id(&self) -> (id: IdType)
        ensures
            id == self@.id,
    {
        self.id
    }

    pub fn set_id(&mut self, id: IdType)
        ensures
            final(self)@ == (FigureModel { id, ..old(self)@ }),
    {
        self.id = id;
    }

    pub fn get_title(&self) -> (title: &str)
        ensures
            title@ == self@.title,
    {
        self.title.as_str()
    }

    pub fn set_title(&mut self, title: String)
        ensures
            final(self)@ == (FigureModel { title: title@, ..old(self)@ }),
    {
        self.title = title;
    }

    pub fn get_description(&self) -> (description: Option<&String>)
        ensures
            match description {
                Some(d) => self@.description == Some(d@),
                None => self@.description is None,
            },
    {
        self.description.as_ref()
    }

    pub fn set_description(&mut self, description: Option<String>)
        ensures
            final(self)@ == (FigureModel { description: opt_text(description), ..old(self)@ }),
    {
        self.description = description;
    }

    pub fn get_width(&self) -> (width: i32)
        ensures
            width == self@.width,
    {
        self.width
    }

    pub fn set_width(&mut self, width: i32)
        ensures
            final(self)@ == (FigureModel { width, ..old(self)@ }),
    {
        self.width = width;
    }

    pub fn get_height(&self) -> (height: i32)
        ensures
            height == self@.height,
    {
        self.height
    }

    pub fn set_height(&mut self, height: i32)
        ensures
            final(self)@ == (FigureModel { height, ..old(self)@ }),
    {
        self.height = height;
    }

    pub fn get_url(&self) -> (url: &str)
        ensures
            url@ == self@.url,
    {
        self.url.as_str()
    }

    pub fn set_url(&mut self, url: String)
        ensures
            final(self)@ == (FigureModel { url: url@, ..old(self)@ }),
    {
        self.url = url;
    }

    pub fn get_profile_id(&self) -> (profile_id: IdType)
        ensures
            profile_id == self@.profile_id,
    {
        self.profile_id
    }

    pub fn set_profile_id(&mut self, profile_id: IdType)
        ensures
            final(self)@ == (FigureModel { profile_id, ..old(self)@ }),
    {
        self.profile_id = profile_id;
    }
}

/// Dimensions are accepted exactly when width and height sum to at most 6000
/// pixels; anything larger is `ImageDimensionsTooLarge`, whatever the shape.
pub proof fn lemma_size_limit(width: int, height: int)
    ensures
        size_check(width, height) is Ok <==> width + height <= 6000,
        !(width + height <= 6000) ==> size_check(width, height) == Err::<(), ServerError>(
            ServerError::ImageDimensionsTooLarge,
        ),
{
}

} // verus!
