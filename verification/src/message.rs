//! The part of a received BGP message that the diagnostics look at.
//!
//! `N` is the type of one announced path and `E` that of one attribute error.
//! The diagnostics count the former and check for the presence of the latter;
//! they never look inside either.

use vstd::prelude::*;

verus! {

/// An address family, as its AFI and SAFI numbers.
#[derive(Debug, Clone, Copy, PartialEq, Eq)]
pub struct Family {
    pub afi: u16,
    pub safi: u8,
}

/// The paths of one family that an UPDATE announces.
#[derive(Debug)]
pub struct NlriSet<N> {
    pub family: Family,
    pub entries: Vec<N>,
}

/// A parsed UPDATE, before validation.
#[derive(Debug)]
pub enum ParsedUpdate<N, E> {
    /// The marker that ends the initial transfer of a family.
    EndOfRib,
    /// Announcements: those of the message body, those of the multiprotocol
    /// attribute, and the errors met while parsing the attributes.
    Routes { reach: Option<NlriSet<N>>, mp_reach: Option<NlriSet<N>>, error_attrs: Vec<E> },
}

/// A parsed message, before validation.
#[derive(Debug)]
pub enum ParsedMessage<N, E> {
    Open,
    Update(ParsedUpdate<N, E>),
    Notification,
    Keepalive,
    RouteRefresh,
}

impl<N> NlriSet<N> {
    /// The announcements of an optional set: none where the set is absent.
    pub open spec fn entries_of(set: Option<NlriSet<N>>) -> Seq<N> {
        match set {
            Some(s) => s.entries@,
            None => Seq::empty(),
        }
    }

    /// How many announcements an optional set holds.
    pub(crate) fn count(set: &Option<NlriSet<N>>) -> (n: u64)
        ensures
            n == NlriSet::entries_of(*set).len(),
    {
        match set {
            Some(s) => s.entries.len() as u64,
            None => 0,
        }
    }

    /// The first announcement of an optional set.
    pub(crate) fn first(set: &Option<NlriSet<N>>) -> (sample: Option<&N>)
        ensures
            is_first(sample, NlriSet::entries_of(*set)),
    {
        match set {
            Some(s) => s.entries.first(),
            None => None,
        }
    }
}

impl<N, E> ParsedMessage<N, E> {
    /// Whether the message is an UPDATE that carries routes.
    pub open spec fn is_routes(self) -> bool {
        self matches ParsedMessage::Update(ParsedUpdate::Routes { .. })
    }

    /// Every announcement of the message, those of the body first.
    pub open spec fn announcements(self) -> Seq<N> {
        match self {
            ParsedMessage::Update(ParsedUpdate::Routes { reach, mp_reach, .. }) =>
                NlriSet::entries_of(reach) + NlriSet::entries_of(mp_reach),
            _ => Seq::empty(),
        }
    }

    /// The attribute errors of the message.
    pub open spec fn attribute_errors(self) -> Seq<E> {
        match self {
            ParsedMessage::Update(ParsedUpdate::Routes { error_attrs, .. }) => error_attrs@,
            _ => Seq::empty(),
        }
    }
}

/// Whether `sample` is what stands first in `s`, and absent where `s` is empty.
pub open spec fn is_first<N>(sample: Option<&N>, s: Seq<N>) -> bool {
    match sample {
        Some(n) => s.len() > 0 && *n == s[0],
        None => s.len() == 0,
    }
}

} // verus!
