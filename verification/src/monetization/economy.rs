//! The economy ledger: kinds of events, how its store opens, and CSV fields.
use vstd::prelude::*;

use crate::storage::{open_mode, spec_open_mode, OpenMode};
use crate::text::{chars_of, concat2, owned, push_char, str_eq};

verus! {

/// Errors of the economy store that its own logic raises.
#[derive(Clone, Debug)]
pub enum EconomyError {
    /// A text that names no kind of event.
    InvalidEventType(String),
    /// No database path was given.
    MissingStore,
}

/// Kinds of ledger events.
#[derive(Clone, Copy, Debug, PartialEq, Eq, Structural)]
pub enum EconomyEventType {
    View,
    Click,
    SlotSell,
    Affiliate,
    Cost,
    Payout,
}

pub open spec fn event_text(e: EconomyEventType) -> Seq<char> {
    match e {
        EconomyEventType::View => "view"@,
        EconomyEventType::Click => "click"@,
        EconomyEventType::SlotSell => "slot_sell"@,
        EconomyEventType::Affiliate => "affiliate"@,
        EconomyEventType::Cost => "cost"@,
        EconomyEventType::Payout => "payout"@,
    }
}

pub open spec fn revenue(e: EconomyEventType) -> bool {
    e == EconomyEventType::View || e == EconomyEventType::Click || e == EconomyEventType::SlotSell
        || e == EconomyEventType::Affiliate
}

pub open spec fn event_of_text(t: Seq<char>) -> Option<EconomyEventType> {
    if t == "view"@ {
        Some(EconomyEventType::View)
    } else if t == "click"@ {
        Some(EconomyEventType::Click)
    } else if t == "slot_sell"@ {
        Some(EconomyEventType::SlotSell)
    } else if t == "affiliate"@ {
        Some(EconomyEventType::Affiliate)
    } else if t == "cost"@ {
        Some(EconomyEventType::Cost)
    } else if t == "payout"@ {
        Some(EconomyEventType::Payout)
    } else {
        None
    }
}

impl EconomyEventType {
    /// Snake-case name of the kind.
    pub fn as_str(&self) -> (r: &'static str)
        ensures
            r@ == event_text(*self),
    {
        match self {
            EconomyEventType::View => "view",
            EconomyEventType::Click => "click",
            EconomyEventType::SlotSell => "slot_sell",
            EconomyEventType::Affiliate => "affiliate",
            EconomyEventType::Cost => "cost",
            EconomyEventType::Payout => "payout",
        }
    }

    /// Views, clicks, slot sales and affiliate income are revenue; costs and payouts are not.
    pub fn is_revenue(&self) -> (r: bool)
        ensures
            r == revenue(*self),
    {
        match self {
            EconomyEventType::View | EconomyEventType::Click | EconomyEventType::SlotSell
            | EconomyEventType::Affiliate => true,
            _ => false,
        }
    }

    /// The kind named by `s`, or `InvalidEventType(s)`.
    pub fn parse(s: &str) -> (r: Result<EconomyEventType, EconomyError>)
        ensures
            match event_of_text(s@) {
                Some(e) => r == Ok::<EconomyEventType, EconomyError>(e),
                None => r matches Err(EconomyError::InvalidEventType(t)) && t@ == s@,
            },
    {
        if str_eq(s, "view") {
            Ok(EconomyEventType::View)
        } else if str_eq(s, "click") {
            Ok(EconomyEventType::Click)
        } else if str_eq(s, "slot_sell") {
            Ok(EconomyEventType::SlotSell)
        } else if str_eq(s, "affiliate") {
            Ok(EconomyEventType::Affiliate)
        } else if str_eq(s, "cost") {
            Ok(EconomyEventType::Cost)
        } else if str_eq(s, "payout") {
            Ok(EconomyEventType::Payout)
        } else {
            Err(EconomyError::InvalidEventType(owned(s)))
        }
    }
}

/// Reading back the name of a kind gives the kind.
pub proof fn law_event_text_round_trip(e: EconomyEventType)
    ensures
        event_of_text(event_text(e)) == Some(e),
{
    reveal_strlit("view");
    reveal_strlit("click");
    reveal_strlit("slot_sell");
    reveal_strlit("affiliate");
    reveal_strlit("cost");
    reveal_strlit("payout");
    assert("view"@[0] == 'v');
    assert("click"@[0] == 'c');
    assert("slot_sell"@[0] == 's');
    assert("affiliate"@[0] == 'a');
    assert("cost"@[1] == 'o');
    assert("click"@[1] == 'l');
    assert("payout"@[0] == 'p');
}

/// Options for opening the economy ledger store.
#[derive(Clone, Debug)]
pub struct EconomyStoreBuilder {
    path: Option<String>,
    read_only: bool,
    create_if_missing: bool,
}

/// An economy store: its database file and how it is opened.
#[derive(Clone, Debug)]
pub struct EconomyStore {
    pub path: String,
    pub mode: OpenMode,
}

impl EconomyStoreBuilder {
    pub closed spec fn spec_path(self) -> Option<Seq<char>> {
        match self.path {
            Some(p) => Some(p@),
            None => None,
        }
    }

    pub closed spec fn spec_read_only(self) -> bool {
        self.read_only
    }

    pub closed spec fn spec_create_if_missing(self) -> bool {
        self.create_if_missing
    }

    /// No path, read-write, creating a missing file.
    pub fn new() -> (r: Self)
        ensures
            r.spec_path() is None,
            !r.spec_read_only(),
            r.spec_create_if_missing(),
    {
        EconomyStoreBuilder { path: None, read_only: false, create_if_missing: true }
    }

    pub fn path(self, path: &str) -> (r: Self)
        ensures
            r.spec_path() == Some(path@),
            r.spec_read_only() == self.spec_read_only(),
            r.spec_create_if_missing() == self.spec_create_if_missing(),
    {
        EconomyStoreBuilder { path: Some(owned(path)), ..self }
    }

    pub fn read_only(self, value: bool) -> (r: Self)
        ensures
            r.spec_path() == self.spec_path(),
            r.spec_read_only() == value,
            r.spec_create_if_missing() == self.spec_create_if_missing(),
    {
        EconomyStoreBuilder { read_only: value, ..self }
    }

    pub fn create_if_missing(self, value: bool) -> (r: Self)
        ensures
            r.spec_path() == self.spec_path(),
            r.spec_read_only() == self.spec_read_only(),
            r.spec_create_if_missing() == value,
    {
        EconomyStoreBuilder { create_if_missing: value, ..self }
    }

    /// The store, or `MissingStore` when no path was given.
    pub fn build(self) -> (r: Result<EconomyStore, EconomyError>)
        ensures
            match self.spec_path() {
                Some(p) => r is Ok && r->Ok_0.path@ == p && r->Ok_0.mode == spec_open_mode(
                    self.spec_read_only(),
                    self.spec_create_if_missing(),
                ),
                None => r is Err,
            },
    {
        let mode = open_mode(self.read_only, self.create_if_missing);
        match self.path {
            Some(path) => Ok(EconomyStore { path, mode }),
            None => Err(EconomyError::MissingStore),
        }
    }
}


/// Characters that force a CSV field into quotes.
pub open spec fn special(c: char) -> bool {
    c == '"' || c == ',' || c == '\n' || c == '\r'
}

/// A CSV field: quoted, with inner double quotes turned into single ones,
/// when it holds a quote, comma or line break; otherwise unchanged.
pub open spec fn escaped(s: Seq<char>) -> Seq<char> {
    if exists|i: int| 0 <= i < s.len() && special(#[trigger] s[i]) {
        seq!['"'] + s.map_values(|c: char| if c == '"' { '\'' } else { c }) + seq!['"']
    } else {
        s
    }
}

/// A value made safe for one CSV field.
pub fn escape_field(value: &str) -> (r: String)
    ensures
        r@ == escaped(value@),
{
    let v = chars_of(value);
    let mut needs = false;
    let mut i: usize = 0;
    while i < v.len()
        invariant
            v@ == value@,
            i <= v@.len(),
            needs == exists|j: int| 0 <= j < i && special(#[trigger] v@[j]),
        decreases v@.len() - i,
    {
        let c = v[i];
        if c == '"' || c == ',' || c == '\n' || c == '\r' {
            needs = true;
        }
        i = i + 1;
    }
    if !needs {
        return owned(value);
    }
    let mut r = String::new();
    push_char(&mut r, '"');
    let mut k: usize = 0;
    while k < v.len()
        invariant
            v@ == value@,
            k <= v@.len(),
            r@ == seq!['"'] + v@.take(k as int).map_values(|c: char| if c == '"' { '\'' } else { c }),
        decreases v@.len() - k,
    {
        let c = v[k];
        push_char(&mut r, if c == '"' { '\'' } else { c });
        k = k + 1;
        assert(r@ =~= seq!['"'] + v@.take(k as int).map_values(|c: char| if c == '"' { '\'' } else { c }));
    }
    push_char(&mut r, '"');
    assert(v@.take(v@.len() as int) =~= v@);
    r
}

} // verus!
