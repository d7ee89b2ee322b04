//! Cheer practice periods as stored.
use vstd::prelude::*;
use crate::common::requests::FilterConfig;
use crate::ids::{Date, Time, Timestamp, Uuid};
use crate::models::cheer_practice_period::request::QueryableCheerPracticePeriod;
use crate::query::{fragment_views, render_where, SqlFragment, SqlFragmentView, SqlWhereClauseView};

verus! {

/// A cheer practice period: its date, start and end time, delay in minutes and note.
pub struct DbCheerPracticePeriod {
    pub id: Uuid,
    pub created_at: Timestamp,
    pub date: Date,
    pub start_time: Time,
    pub end_time: Time,
    pub delay: Option<i64>,
    pub note: Option<String>,
}

impl DbCheerPracticePeriod {
    /// The pieces that a filter adds to a query: the `WHERE` clause of its criteria, if any.
    pub open spec fn shared_query(filter: Option<FilterConfig<QueryableCheerPracticePeriod>>) -> Seq<SqlFragmentView> {
        match filter {
            Some(f) => match f.data {
                Some(d) => render_where(SqlWhereClauseView { with_keyword: false, conditions: d.where_conditions() }),
                None => Seq::<SqlFragmentView>::empty(),
            },
            None => Seq::<SqlFragmentView>::empty(),
        }
    }

    /// Appends the conditions of a filter to a query.
    pub fn build_shared_query(query: &mut Vec<SqlFragment>, filter: Option<FilterConfig<QueryableCheerPracticePeriod>>)
        ensures
            fragment_views(final(query)@) == fragment_views(old(query)@) + Self::shared_query(filter),
    {
        let ghost spec_filter = filter;
        if let Some(filter) = filter {
            if let Some(data) = filter.data {
                data.to_where_clause().append_into_query_builder(query);
                return;
            }
        }
        assert(fragment_views(query@) =~= fragment_views(old(query)@) + Self::shared_query(spec_filter));
    }

    /// The identifiers of the practice periods held during the Jaturamitr event.
    pub open spec fn jaturamitr_period_ids() -> Set<u128> {
        set![
            0x870658c9_231d_454b_af62_86c0c7827ada_u128,
            0xa5b701d0_be27_4c52_a640_e23790457b61_u128,
            0x0c18a3b9_3b7f_4c71_a380_1ad0c448e35a_u128,
        ]
    }

    /// Exactly three practice periods belong to the Jaturamitr event, and a period belongs to
    /// it when and only when its identifier is one of those three.
    pub proof fn lemma_jaturamitr_periods()
        ensures
            Self::jaturamitr_period_ids().len() == 3,
            forall|bits: u128| #[trigger] Self::jaturamitr_period_ids().contains(bits) <==> (
                bits == 0x870658c9_231d_454b_af62_86c0c7827ada_u128
                || bits == 0xa5b701d0_be27_4c52_a640_e23790457b61_u128
                || bits == 0x0c18a3b9_3b7f_4c71_a380_1ad0c448e35a_u128),
    {
        let a = 0x870658c9_231d_454b_af62_86c0c7827ada_u128;
        let b = 0xa5b701d0_be27_4c52_a640_e23790457b61_u128;
        let c = 0x0c18a3b9_3b7f_4c71_a380_1ad0c448e35a_u128;
        assert(Set::<u128>::empty().insert(a).len() == 1);
        assert(Set::<u128>::empty().insert(a).insert(b).len() == 2);
        assert(Set::<u128>::empty().insert(a).insert(b).insert(c).len() == 3);
        assert(Self::jaturamitr_period_ids() =~= Set::<u128>::empty().insert(a).insert(b).insert(c));
    }

    /// Whether a practice period is one held during the Jaturamitr event.
    pub fn in_jaturamitr_period(practice_period_id: Uuid) -> (r: bool)
        ensures
            r == Self::jaturamitr_period_ids().contains(practice_period_id.bits),
    {
        let id = practice_period_id.bits;
        id == 0x870658c9_231d_454b_af62_86c0c7827ada_u128
            || id == 0xa5b701d0_be27_4c52_a640_e23790457b61_u128
            || id == 0x0c18a3b9_3b7f_4c71_a380_1ad0c448e35a_u128
    }
}

} // verus!
