//! The OpenRPC document: an information block, the methods, and the
//! section of named schemas.
use vstd::prelude::*;
use crate::schema::NamedSchema;
use crate::schema::NamedSchemaView;

verus! {

#[derive(Debug, PartialEq, Eq)]
pub struct OpenRpc {
    pub openrpc: String,
    pub info: Option<Info>,
    pub methods: Vec<Method>,
    pub components: Option<Components>,
}

#[derive(Debug, PartialEq, Eq)]
pub struct Info {
    pub title: Option<String>,
    pub version: Option<String>,
    pub description: Option<String>,
}

#[derive(Debug, PartialEq, Eq)]
pub struct Method {
    pub name: String,
}

/// The named schemas, in the order in which the document declares them.
#[derive(Debug, PartialEq, Eq)]
pub struct Components {
    pub schemas: Option<Vec<NamedSchema>>,
}

impl OpenRpc {
    /// The named-schema section, where the document has one.
    pub open spec fn declared_schemas(self) -> Option<Seq<NamedSchemaView>> {
        match self.components {
            Some(components) => match components.schemas {
                Some(schemas) => Some(schemas.deep_view()),
                None => None,
            },
            None => None,
        }
    }

    /// The version that the information block states, where it states one.
    pub open spec fn declared_version(self) -> Option<Seq<char>> {
        match self.info {
            Some(info) => match info.version {
                Some(version) => Some(version@),
                None => None,
            },
            None => None,
        }
    }
}

} // verus!
