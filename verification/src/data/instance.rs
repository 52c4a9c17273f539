//! Forge instances.

use vstd::prelude::*;

verus! {

/// An instance of a forge which hosts projects.
#[derive(Debug)]
pub struct Instance {
    /// A unique ID for the instance.
    pub unique_id: u64,
    /// The name of the forge implementation.
    pub forge: String,
    /// The URL of the forge.
    pub url: String,
}

/// What an [`Instance`] says.
pub struct InstanceView {
    pub unique_id: u64,
    pub forge: Seq<char>,
    pub url: Seq<char>,
}

impl View for Instance {
    type V = InstanceView;

    open spec fn view(&self) -> InstanceView {
        InstanceView { unique_id: self.unique_id, forge: self.forge@, url: self.url@ }
    }
}

impl Clone for Instance {
    fn clone(&self) -> (r: Self)
        ensures
            r@ == self@,
    {
        Instance { unique_id: self.unique_id, forge: self.forge.clone(), url: self.url.clone() }
    }
}

/// Why an [`Instance`] could not be built.
#[derive(Debug)]
pub enum InstanceBuilderError {
    /// A required field was never set.
    UninitializedField(&'static str),
    /// The fields that were set do not make a valid value.
    ValidationError(String),
}

/// Collects the fields of an [`Instance`].
#[derive(Debug)]
pub struct InstanceBuilder {
    pub unique_id: Option<u64>,
    pub forge: Option<String>,
    pub url: Option<String>,
}

impl Instance {
    /// Create a builder for the structure.
    pub fn builder() -> (r: InstanceBuilder)
        ensures
            r == InstanceBuilder::empty(),
    {
        InstanceBuilder { unique_id: None, forge: None, url: None }
    }
}

impl InstanceBuilder {
    /// The builder with no field set.
    pub open spec fn empty() -> InstanceBuilder {
        InstanceBuilder { unique_id: None, forge: None, url: None }
    }

    /// The first required field, in declaration order, that is not set.
    pub open spec fn missing(self) -> Option<Seq<char>> {
        if self.unique_id is None {
            Some("unique_id"@)
        } else if self.forge is None {
            Some("forge"@)
        } else if self.url is None {
            Some("url"@)
        } else {
            None
        }
    }

    /// What the builder makes once every required field is set.
    pub open spec fn record(self) -> InstanceView {
        InstanceView {
            unique_id: self.unique_id.unwrap(),
            forge: self.forge.unwrap()@,
            url: self.url.unwrap()@,
        }
    }

    /// A unique ID for the instance.
    pub fn unique_id(self, value: u64) -> (r: Self)
        ensures
            r == (InstanceBuilder { unique_id: Some(value), ..self }),
    {
        InstanceBuilder { unique_id: Some(value), ..self }
    }

    /// The name of the forge implementation.
    pub fn forge(self, value: &str) -> (r: Self)
        ensures
            r.forge is Some,
            r.forge.unwrap()@ == value@,
            r == (InstanceBuilder { forge: r.forge, ..self }),
    {
        InstanceBuilder { forge: Some(value.to_owned()), ..self }
    }

    /// The URL of the forge.
    pub fn url(self, value: &str) -> (r: Self)
        ensures
            r.url is Some,
            r.url.unwrap()@ == value@,
            r == (InstanceBuilder { url: r.url, ..self }),
    {
        InstanceBuilder { url: Some(value.to_owned()), ..self }
    }

    /// Build the instance, or name the first required field that is missing.
    pub fn build(self) -> (r: Result<Instance, InstanceBuilderError>)
        ensures
            match r {
                Ok(v) => self.missing() is None && v@ == self.record(),
                Err(e) => e matches InstanceBuilderError::UninitializedField(f)
                    && self.missing() == Some(f@),
            },
    {
        let unique_id = match self.unique_id {
            Some(v) => v,
            None => return Err(InstanceBuilderError::UninitializedField("unique_id")),
        };
        let forge = match self.forge {
            Some(v) => v,
            None => return Err(InstanceBuilderError::UninitializedField("forge")),
        };
        let url = match self.url {
            Some(v) => v,
            None => return Err(InstanceBuilderError::UninitializedField("url")),
        };
        Ok(Instance { unique_id, forge, url })
    }
}

} // verus!
