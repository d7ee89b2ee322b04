//! The forms in which a contact is returned: by identifier, and default.
use vstd::prelude::*;
use crate::common::string::{flexible_of, FlexibleMultiLangString};
use crate::ids::Uuid;
use crate::models::contact::db::DbContact;
use crate::models::contact::enums::ContactType;

verus! {

/// A contact by its identifier alone.
pub struct IdOnlyContact {
    pub id: Uuid,
}

impl IdOnlyContact {
    pub fn from(contact: DbContact) -> (r: Self)
        ensures
            r.id == contact.id,
    {
        IdOnlyContact { id: contact.id }
    }
}

/// A contact entry with its name, kind and value.
pub struct DefaultContact {
    pub id: Uuid,
    pub name: Option<FlexibleMultiLangString>,
    pub contact_type: ContactType,
    pub value: String,
}

impl DefaultContact {
    /// The default form of a stored contact. The name is absent when neither its Thai nor
    /// its English text is.
    pub fn from(contact: DbContact) -> (r: Self)
        ensures
            r.id == contact.id,
            r.name == flexible_of(contact.name_th, contact.name_en),
            r.contact_type == contact.contact_type,
            r.value == contact.value,
    {
        DefaultContact {
            id: contact.id,
            name: FlexibleMultiLangString::from_parts(contact.name_th, contact.name_en),
            contact_type: contact.contact_type,
            value: contact.value,
        }
    }
}

} // verus!
