use vstd::prelude::*;

verus! {

/// The tabs under the response: its body, its headers, its statistics.
#[derive(PartialEq, Eq, Structural, Clone, Copy, Debug, Hash)]
pub enum Tab {
    Response,
    Headers,
    Stats,
}

/// The caption of a tab.
pub open spec fn tab_name(t: Tab) -> Seq<char> {
    match t {
        Tab::Response => "Response"@,
        Tab::Headers => "Headers"@,
        Tab::Stats => "Stats"@,
    }
}

/// The tabs from left to right; a tab's position is its index here.
pub open spec fn tab_order() -> Seq<Tab> {
    seq![Tab::Response, Tab::Headers, Tab::Stats]
}

/// The position of a tab in the tab bar.
pub open spec fn tab_position(t: Tab) -> int {
    match t {
        Tab::Response => 0,
        Tab::Headers => 1,
        Tab::Stats => 2,
    }
}

/// The tab shown for an active position, if the position names one.
pub open spec fn tab_for(position: int) -> Option<Tab> {
    if 0 <= position < tab_order().len() {
        Some(tab_order()[position])
    } else {
        None
    }
}

impl Tab {
    /// The caption of the tab.
    pub fn to_string(&self) -> (s: String)
        ensures
            s@ == tab_name(*self),
    {
        match self {
            Tab::Response => "Response".to_string(),
            Tab::Headers => "Headers".to_string(),
            Tab::Stats => "Stats".to_string(),
        }
    }

    /// The position of the tab in the tab bar.
    pub fn position(&self) -> (p: usize)
        ensures
            p as int == tab_position(*self),
    {
        match self {
            Tab::Response => 0,
            Tab::Headers => 1,
            Tab::Stats => 2,
        }
    }
}

/// The tabs from left to right.
pub fn tabs() -> (v: Vec<Tab>)
    ensures
        v@ == tab_order(),
{
    let v = vec![Tab::Response, Tab::Headers, Tab::Stats];
    assert(v@ =~= tab_order());
    v
}

/// The tab shown when `position` is the active one; `None` past the last.
pub fn tab_at(position: usize) -> (t: Option<Tab>)
    ensures
        t == tab_for(position as int),
{
    if position == 0 {
        Some(Tab::Response)
    } else if position == 1 {
        Some(Tab::Headers)
    } else if position == 2 {
        Some(Tab::Stats)
    } else {
        None
    }
}

/// Clicking a tab makes its position active, and the active position
/// shows that same tab; each position that shows a tab is that tab's own.
pub proof fn lemma_tab_position_roundtrip(t: Tab, position: int)
    ensures
        tab_for(tab_position(t)) == Some(t),
        tab_for(position) matches Some(u) ==> tab_position(u) == position,
{
}

/// No two tabs share a caption.
pub proof fn lemma_tab_names_distinct(a: Tab, b: Tab)
    requires
        a != b,
    ensures
        tab_name(a) != tab_name(b),
{
    reveal_strlit("Response");
    reveal_strlit("Headers");
    reveal_strlit("Stats");
    assert("Response"@.len() == 8);
    assert("Headers"@.len() == 7);
    assert("Stats"@.len() == 5);
}

/// The tabs read "Response", "Headers" and "Stats", from left to right at
/// positions 0, 1 and 2, and no position past them shows a tab.
pub proof fn lemma_tab_parts(position: int)
    ensures
        tab_name(Tab::Response) == "Response"@,
        tab_name(Tab::Headers) == "Headers"@,
        tab_name(Tab::Stats) == "Stats"@,
        tab_for(0) == Some(Tab::Response),
        tab_for(1) == Some(Tab::Headers),
        tab_for(2) == Some(Tab::Stats),
        (position < 0 || position > 2) ==> tab_for(position) is None,
{
}

} // verus!
