//! User accounts.

use vstd::prelude::*;
use crate::data::blob::{clone_opt_blob, opt_blob_view, BlobReference, BlobReferenceView};
use crate::data::instance::Instance;
use crate::objects::vec::VecIndex;
use crate::text::{clone_opt_string, opt_text};
use crate::time::Timestamp;

verus! {

/// A user account on an instance.
#[derive(Debug)]
pub struct User {
    /// The handle of the user.
    pub handle: String,
    /// The display name of the user.
    pub name: String,
    /// The email address of the user.
    pub email: Option<String>,
    /// The avatar of the user.
    pub avatar: Option<BlobReference>,
    /// The ID of the user.
    pub forge_id: u64,
    /// The instance the user account is associated with.
    pub instance: VecIndex<Instance>,
    /// When the monitoring tool first fetched information.
    pub cim_fetched_at: Timestamp,
    /// When the monitoring tool last updated this information.
    pub cim_refreshed_at: Timestamp,
}

/// What an [`User`] says.
pub struct UserView {
    pub handle: Seq<char>,
    pub name: Seq<char>,
    pub email: Option<Seq<char>>,
    pub avatar: Option<BlobReferenceView>,
    pub forge_id: u64,
    pub instance: VecIndex<Instance>,
    pub cim_fetched_at: Timestamp,
    pub cim_refreshed_at: Timestamp,
}

impl View for User {
    type V = UserView;

    open spec fn view(&self) -> UserView {
        UserView {
            handle: self.handle@,
            name: self.name@,
            email: opt_text(self.email),
            avatar: opt_blob_view(self.avatar),
            forge_id: self.forge_id,
            instance: self.instance,
            cim_fetched_at: self.cim_fetched_at,
            cim_refreshed_at: self.cim_refreshed_at,
        }
    }
}

impl Clone for User {
    fn clone(&self) -> (r: Self)
        ensures
            r@ == self@,
    {
        User {
            handle: self.handle.clone(),
            name: self.name.clone(),
            email: clone_opt_string(&self.email),
            avatar: clone_opt_blob(&self.avatar),
            forge_id: self.forge_id,
            instance: self.instance,
            cim_fetched_at: self.cim_fetched_at,
            cim_refreshed_at: self.cim_refreshed_at,
        }
    }
}

impl UserView {
    /// The record was first fetched no later than it was last refreshed.
    pub open spec fn stamps_ordered(self) -> bool {
        self.cim_fetched_at.spec_at_most(self.cim_refreshed_at)
    }
}

/// Why an [`User`] could not be built.
#[derive(Debug)]
pub enum UserBuilderError {
    /// A required field was never set.
    UninitializedField(&'static str),
    /// The fields that were set do not make a valid value.
    ValidationError(String),
}

/// Collects the fields of an [`User`].
#[derive(Debug)]
pub struct UserBuilder {
    pub handle: Option<String>,
    pub name: Option<String>,
    pub email: Option<Option<String>>,
    pub avatar: Option<Option<BlobReference>>,
    pub forge_id: Option<u64>,
    pub instance: Option<VecIndex<Instance>>,
}

impl User {
    /// Create a builder for the structure.
    pub fn builder() -> (r: UserBuilder)
        ensures
            r == UserBuilder::empty(),
    {
        UserBuilder {
            handle: None,
            name: None,
            email: None,
            avatar: None,
            forge_id: None,
            instance: None,
        }
    }
}

impl UserBuilder {
    /// The builder with no field set.
    pub open spec fn empty() -> UserBuilder {
        UserBuilder {
            handle: None,
            name: None,
            email: None,
            avatar: None,
            forge_id: None,
            instance: None,
        }
    }

    /// The first required field, in declaration order, that is not set.
    pub open spec fn missing(self) -> Option<Seq<char>> {
        if self.forge_id is None {
            Some("forge_id"@)
        } else if self.instance is None {
            Some("instance"@)
        } else {
            None
        }
    }

    /// What the builder makes at the instant `now`, once every required field
    /// is set.
    pub open spec fn record(self, now: Timestamp) -> UserView {
        UserView {
            handle: match self.handle {
                Some(v) => v@,
                None => Seq::empty(),
            },
            name: match self.name {
                Some(v) => v@,
                None => Seq::empty(),
            },
            email: match self.email {
                Some(v) => opt_text(v),
                None => None,
            },
            avatar: match self.avatar {
                Some(v) => opt_blob_view(v),
                None => None,
            },
            forge_id: self.forge_id.unwrap(),
            instance: self.instance.unwrap(),
            cim_fetched_at: now,
            cim_refreshed_at: now,
        }
    }

    /// The handle of the user.
    pub fn handle(self, value: &str) -> (r: Self)
        ensures
            r.handle is Some,
            r.handle.unwrap()@ == value@,
            r == (UserBuilder { handle: r.handle, ..self }),
    {
        UserBuilder { handle: Some(value.to_owned()), ..self }
    }

    /// The display name of the user.
    pub fn name(self, value: &str) -> (r: Self)
        ensures
            r.name is Some,
            r.name.unwrap()@ == value@,
            r == (UserBuilder { name: r.name, ..self }),
    {
        UserBuilder { name: Some(value.to_owned()), ..self }
    }

    /// The email address of the user.
    pub fn email(self, value: Option<String>) -> (r: Self)
        ensures
            r == (UserBuilder { email: Some(value), ..self }),
    {
        UserBuilder { email: Some(value), ..self }
    }

    /// The avatar of the user.
    pub fn avatar(self, value: Option<BlobReference>) -> (r: Self)
        ensures
            r == (UserBuilder { avatar: Some(value), ..self }),
    {
        UserBuilder { avatar: Some(value), ..self }
    }

    /// The ID of the user.
    pub fn forge_id(self, value: u64) -> (r: Self)
        ensures
            r == (UserBuilder { forge_id: Some(value), ..self }),
    {
        UserBuilder { forge_id: Some(value), ..self }
    }

    /// The instance the user account is associated with.
    pub fn instance(self, value: VecIndex<Instance>) -> (r: Self)
        ensures
            r == (UserBuilder { instance: Some(value), ..self }),
    {
        UserBuilder { instance: Some(value), ..self }
    }

    /// Build the user as first seen at `now`, or name the first required field
    /// that is missing.
    pub fn build_at(self, now: Timestamp) -> (r: Result<User, UserBuilderError>)
        ensures
            match r {
                Ok(v) => self.missing() is None && v@ == self.record(now),
                Err(e) => e matches UserBuilderError::UninitializedField(f)
                    && self.missing() == Some(f@),
            },
    {
        let forge_id = match self.forge_id {
            Some(v) => v,
            None => return Err(UserBuilderError::UninitializedField("forge_id")),
        };
        let instance = match self.instance {
            Some(v) => v,
            None => return Err(UserBuilderError::UninitializedField("instance")),
        };
        let handle = match self.handle {
            Some(v) => v,
            None => String::new(),
        };
        let name = match self.name {
            Some(v) => v,
            None => String::new(),
        };
        let email = match self.email {
            Some(v) => v,
            None => None,
        };
        let avatar = match self.avatar {
            Some(v) => v,
            None => None,
        };
        Ok(User {
            handle,
            name,
            email,
            avatar,
            forge_id,
            instance,
            cim_fetched_at: now,
            cim_refreshed_at: now,
        })
    }

    /// Build the user as first seen now, or name the first required field that
    /// is missing.
    pub fn build(self) -> (r: Result<User, UserBuilderError>)
        ensures
            match r {
                Ok(v) => self.missing() is None && v@ == self.record(v.cim_fetched_at),
                Err(e) => e matches UserBuilderError::UninitializedField(f)
                    && self.missing() == Some(f@),
            },
    {
        self.build_at(Timestamp::now())
    }
}

} // verus!
