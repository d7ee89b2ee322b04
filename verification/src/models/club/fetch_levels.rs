//! The forms in which a club is returned: by identifier, compact, default and detailed.
use vstd::prelude::*;
use crate::common::string::{flexible_of, FlexibleMultiLangString, MultiLangString};
use crate::ids::Uuid;
use crate::models::club::db::DbClub;

verus! {

/// A club by its identifier alone.
pub struct IdOnlyClub {
    pub id: Uuid,
}

impl IdOnlyClub {
    pub fn from(club: DbClub) -> (r: Self)
        ensures
            r.id == club.id,
    {
        IdOnlyClub { id: club.id }
    }
}

/// A club in brief: its name, description, logo, background colour and member count.
pub struct CompactClub {
    pub id: Uuid,
    pub name: MultiLangString,
    pub description: Option<FlexibleMultiLangString>,
    pub logo_url: Option<String>,
    pub background_color: Option<String>,
    pub member_count: i64,
}

impl CompactClub {
    /// The compact form of a stored club. The description is absent when neither its Thai
    /// nor its English text is.
    pub fn from(club: DbClub) -> (r: Self)
        ensures
            r.id == club.id,
            r.name.th == club.name_th,
            r.name.en == club.name_en,
            r.description == flexible_of(club.description_th, club.description_en),
            r.logo_url == club.logo_url,
            r.background_color == club.background_color,
            r.member_count == club.member_count,
    {
        CompactClub {
            id: club.id,
            name: MultiLangString::new(club.name_th, club.name_en),
            description: FlexibleMultiLangString::from_parts(club.description_th, club.description_en),
            logo_url: club.logo_url,
            background_color: club.background_color,
            member_count: club.member_count,
        }
    }
}

/// A club with its contacts, in the form `C` in which they were fetched.
pub struct DefaultClub<C> {
    pub id: Uuid,
    pub name: MultiLangString,
    pub description: Option<FlexibleMultiLangString>,
    pub logo_url: Option<String>,
    pub contacts: Vec<C>,
    pub accent_color: Option<String>,
    pub background_color: Option<String>,
    pub member_count: i64,
    pub staff_count: i64,
}

impl<C> DefaultClub<C> {
    /// The default form of a stored club, with its contacts as fetched.
    pub fn from_relation(relation: DbClub, contacts: Vec<C>) -> (r: Self)
        ensures
            r.id == relation.id,
            r.name.th == relation.name_th,
            r.name.en == relation.name_en,
            r.description == flexible_of(relation.description_th, relation.description_en),
            r.logo_url == relation.logo_url,
            r.contacts == contacts,
            r.accent_color == relation.accent_color,
            r.background_color == relation.background_color,
            r.member_count == relation.member_count,
            r.staff_count == relation.staff_count,
    {
        DefaultClub {
            id: relation.id,
            name: MultiLangString::new(relation.name_th, relation.name_en),
            description: FlexibleMultiLangString::from_parts(relation.description_th, relation.description_en),
            logo_url: relation.logo_url,
            contacts,
            accent_color: relation.accent_color,
            background_color: relation.background_color,
            member_count: relation.member_count,
            staff_count: relation.staff_count,
        }
    }
}

/// A club with its contacts, staff and members, in the forms `C` (contacts) and `S`
/// (students) in which they were fetched.
pub struct DetailedClub<C, S> {
    pub id: Uuid,
    pub name: MultiLangString,
    pub description: Option<FlexibleMultiLangString>,
    pub logo_url: Option<String>,
    pub contacts: Vec<C>,
    pub staffs: Vec<S>,
    pub members: Vec<S>,
    pub accent_color: Option<String>,
    pub background_color: Option<String>,
    pub member_count: i64,
    pub staff_count: i64,
}

impl<C, S> DetailedClub<C, S> {
    /// The detailed form of a stored club, with its contacts, staff and members as fetched.
    pub fn from_table(table: DbClub, contacts: Vec<C>, staffs: Vec<S>, members: Vec<S>) -> (r: Self)
        ensures
            r.id == table.id,
            r.name.th == table.name_th,
            r.name.en == table.name_en,
            r.description == flexible_of(table.description_th, table.description_en),
            r.logo_url == table.logo_url,
            r.contacts == contacts,
            r.staffs == staffs,
            r.members == members,
            r.accent_color == table.accent_color,
            r.background_color == table.background_color,
            r.member_count == table.member_count,
            r.staff_count == table.staff_count,
    {
        DetailedClub {
            id: table.id,
            name: MultiLangString::new(table.name_th, table.name_en),
            description: FlexibleMultiLangString::from_parts(table.description_th, table.description_en),
            logo_url: table.logo_url,
            contacts,
            staffs,
            members,
            accent_color: table.accent_color,
            background_color: table.background_color,
            member_count: table.member_count,
            staff_count: table.staff_count,
        }
    }
}

} // verus!
