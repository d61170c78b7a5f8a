//! Types for the API.
use vstd::prelude::*;
use crate::error::Error;

verus! {

/// Illust info.
#[derive(Debug, Clone, PartialEq, Eq)]
pub struct IllustInfo {
    /// The ID of the illust.
    pub id: i32,
    /// The title of the illust.
    pub title: String,
    /// The description of the illust in HTML format.
    pub description: String,
    /// The type of the illust.
    pub illust_type: IllustType,
    /// The restriction type for the illust.
    pub restriction: Restriction,
    /// The User ID of the author.
    pub user_id: i32,
    /// The name of the author.
    pub user_name: String,
    /// The width of the (first) illust.
    pub width: i32,
    /// The height of the (first) illust.
    pub height: i32,
}

/// Basic profile about a user.
#[derive(Debug, Clone, PartialEq, Eq)]
pub struct UserProfile {
    /// The User ID of the user.
    pub user_id: i32,
    /// The name of the user.
    pub name: String,
    /// The profile image.
    pub image: String,
    /// The big variant of profile image.
    pub image_big: String,
    /// Whether this user has a subscription of Pixiv Premium.
    pub premium: bool,
    /// Whether you have followed the user.
    pub is_followed: bool,
    /// Whether this user is in mypixiv.
    pub is_mypixiv: bool,
    /// Whether this user has been blocked.
    pub is_blocking: bool,
    /// The description of the user.
    pub comment: String,
    /// Whether the user follows you back.
    pub followed_back: bool,
    /// Whether this user accepts being requested for a work.
    pub accept_request: bool,
}

/// Full info about a user.
#[derive(Debug, Clone, PartialEq, Eq)]
pub struct UserInfo {
    /// The base profile of the user.
    pub profile: UserProfile,
    /// How many users this user is following.
    pub following: i32,
    /// The HTML representation of the user's description.
    pub comment_html: String,
    /// The user's web page, if they gave one.
    pub webpage: Option<String>,
    /// Whether this is an official account.
    pub official: bool,
}

/// A basic summary of an illust.
#[derive(Debug, Clone, PartialEq, Eq)]
pub struct IllustProfile {
    /// The ID of the illust.
    pub id: i32,
    /// The title of the illust.
    pub title: String,
    /// The description of the illust in HTML format.
    pub description: String,
    /// The type of the illust.
    pub illust_type: IllustType,
    /// The restriction type for the illust.
    pub restriction: Restriction,
    /// The URL of the first image.
    pub url: String,
    /// The untranslated tags of the illust.
    pub tags: Vec<String>,
    /// The User ID of the author.
    pub user_id: i32,
    /// The name of the author.
    pub user_name: String,
    /// The width of the (first) illust.
    pub width: i32,
    /// The height of the (first) illust.
    pub height: i32,
    /// The pages available in the illust.
    pub page_count: i32,
    /// The profile image URL of the author.
    pub profile_image_url: String,
}

/// The top works of an author.
#[derive(Debug, Clone, PartialEq, Eq)]
pub struct UserTopWorks {
    /// The top illusts.
    pub illusts: Vec<IllustProfile>,
    /// The top mangas.
    pub mangas: Vec<IllustProfile>,
}

/// All the works of an author.
#[derive(Debug, Clone, PartialEq, Eq)]
pub struct UserAllWorks {
    /// The IDs of all illusts.
    pub illusts: Vec<i32>,
    /// The IDs of all mangas.
    pub mangas: Vec<i32>,
}

/// An image in an illust.
#[derive(Debug, Clone, PartialEq, Eq)]
pub struct IllustImage {
    /// The width of the image.
    pub width: i32,
    /// The height of the image.
    pub height: i32,
    /// The URLs available in the image.
    pub urls: IllustImageUrls,
}

/// The URLs available in the image.
#[derive(Debug, Clone, PartialEq, Eq)]
pub struct IllustImageUrls {
    /// The small variant URL of the image.
    pub small: String,
    /// The medium variant URL of the image.
    pub regular: String,
    /// The original variant URL of the image.
    pub original: String,
}

/// The kind of a work; on the wire it is the number 0, 1 or 2.
#[derive(Debug, Clone, Copy, PartialEq, Eq, Structural)]
pub enum IllustType {
    /// A single illustration or a set of them; 0 on the wire.
    Illustration,
    /// A manga; 1 on the wire.
    Manga,
    /// An animation; 2 on the wire.
    Animation,
}

impl IllustType {
    /// The number that stands for the kind on the wire.
    pub open spec fn wire_code(self) -> u8 {
        match self {
            IllustType::Illustration => 0,
            IllustType::Manga => 1,
            IllustType::Animation => 2,
        }
    }

    /// The kind that a number stands for, if it stands for one.
    pub open spec fn of_wire_code(code: u8) -> Option<IllustType> {
        if code == 0 {
            Some(IllustType::Illustration)
        } else if code == 1 {
            Some(IllustType::Manga)
        } else if code == 2 {
            Some(IllustType::Animation)
        } else {
            None
        }
    }

    /// The number that stands for the kind on the wire; reading it back
    /// with [`IllustType::from_u8`] gives the kind again.
    pub fn as_u8(&self) -> (code: u8)
        ensures
            code == self.wire_code(),
            IllustType::of_wire_code(code) == Some(*self),
    {
        match self {
            IllustType::Illustration => 0,
            IllustType::Manga => 1,
            IllustType::Animation => 2,
        }
    }

    /// The kind that a number from the wire stands for; `None` for a number
    /// above 2.
    pub fn from_u8(code: u8) -> (kind: Option<IllustType>)
        ensures
            kind == IllustType::of_wire_code(code),
            kind is Some <==> code <= 2,
            kind matches Some(k) ==> k.wire_code() == code,
    {
        if code == 0 {
            Some(IllustType::Illustration)
        } else if code == 1 {
            Some(IllustType::Manga)
        } else if code == 2 {
            Some(IllustType::Animation)
        } else {
            None
        }
    }
}

/// The age restriction of a work; on the wire it is the number 0, 1 or 2.
#[derive(Debug, Clone, Copy, PartialEq, Eq, Structural)]
pub enum Restriction {
    /// No restriction; 0 on the wire.
    General,
    /// Adults only; 1 on the wire.
    R18,
    /// Adults only, graphic; 2 on the wire.
    R18G,
}

impl Restriction {
    /// The number that stands for the restriction on the wire.
    pub open spec fn wire_code(self) -> u8 {
        match self {
            Restriction::General => 0,
            Restriction::R18 => 1,
            Restriction::R18G => 2,
        }
    }

    /// The restriction that a number stands for, if it stands for one.
    pub open spec fn of_wire_code(code: u8) -> Option<Restriction> {
        if code == 0 {
            Some(Restriction::General)
        } else if code == 1 {
            Some(Restriction::R18)
        } else if code == 2 {
            Some(Restriction::R18G)
        } else {
            None
        }
    }

    /// The number that stands for the restriction on the wire; reading it
    /// back with [`Restriction::from_u8`] gives the restriction again.
    pub fn as_u8(&self) -> (code: u8)
        ensures
            code == self.wire_code(),
            Restriction::of_wire_code(code) == Some(*self),
    {
        match self {
            Restriction::General => 0,
            Restriction::R18 => 1,
            Restriction::R18G => 2,
        }
    }

    /// The restriction that a number from the wire stands for; `None` for a
    /// number above 2.
    pub fn from_u8(code: u8) -> (restriction: Option<Restriction>)
        ensures
            restriction == Restriction::of_wire_code(code),
            restriction is Some <==> code <= 2,
            restriction matches Some(r) ==> r.wire_code() == code,
    {
        if code == 0 {
            Some(Restriction::General)
        } else if code == 1 {
            Some(Restriction::R18)
        } else if code == 2 {
            Some(Restriction::R18G)
        } else {
            None
        }
    }
}

/// The envelope that wraps every response body of the platform.
#[derive(Debug, Clone, PartialEq, Eq)]
pub struct WrappedResponse<T> {
    /// Whether the platform refused the request.
    pub error: bool,
    /// The platform's free-form explanation; meaningful when `error` is set.
    pub message: String,
    /// The payload; the platform always sends one when `error` is not set.
    pub body: Option<T>,
}

impl<T> WrappedResponse<T> {
    /// An envelope keeps the wire contract when it either reports an error
    /// or carries a body.
    pub open spec fn well_formed(&self) -> bool {
        self.error || self.body is Some
    }

    /// What an envelope that keeps the wire contract resolves to.
    pub open spec fn resolved(self) -> Result<T, Error> {
        if self.error {
            Err(Error::RemoteRejected(self.message))
        } else {
            Ok(self.body->0)
        }
    }

    /// Whether the envelope keeps the wire contract.
    pub fn is_well_formed(&self) -> (ok: bool)
        ensures
            ok == self.well_formed(),
    {
        self.error || self.body.is_some()
    }

    /// Turns the envelope into its body, or into the platform's refusal.
    ///
    /// An envelope that claims success without a body breaks the wire
    /// contract and is not accepted here; test it with
    /// [`WrappedResponse::is_well_formed`] first.
    pub fn resolve(self) -> (result: Result<T, Error>)
        requires
            self.well_formed(),
        ensures
            result == self.resolved(),
            self.error ==> result == Err::<T, Error>(Error::RemoteRejected(self.message)),
            !self.error ==> result == Ok::<T, Error>(self.body->0),
    {
        if self.error {
            Err(Error::RemoteRejected(self.message))
        } else {
            Ok(self.body.unwrap())
        }
    }
}

/// An envelope that reports an error resolves to the platform's refusal,
/// which carries the envelope's message unaltered, whatever body came along.
pub proof fn lemma_error_envelope_is_rejected<T>(envelope: WrappedResponse<T>)
    requires
        envelope.error,
    ensures
        envelope.well_formed(),
        envelope.resolved() == Err::<T, Error>(Error::RemoteRejected(envelope.message)),
{
}

/// An envelope that reports success and carries a body resolves to exactly
/// that body, whatever its message says.
pub proof fn lemma_success_envelope_gives_body<T>(message: String, body: T)
    ensures
        (WrappedResponse { error: false, message, body: Some(body) }).well_formed(),
        (WrappedResponse { error: false, message, body: Some(body) }).resolved() == Ok::<T, Error>(
            body,
        ),
{
}

} // verus!
