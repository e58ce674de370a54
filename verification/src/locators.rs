//! Where the elements of a page are looked for.
//!
//! The site's markup drifts, so an element is looked for through a chain of
//! locators, from the most exact to the most general, and the first that
//! finds one wins.

use vstd::prelude::*;

verus! {

/// The username input, by its name.
pub const USER_CSS: &'static str = "input[name='username']";

/// The username input, by its label.
pub const USER_XPATH_1: &'static str =
    "//input[contains(@aria-label, 'username') or contains(@aria-label, 'Mobile')]";

/// The username input, by its type.
pub const USER_XPATH_2: &'static str = "//input[@type='text']";

/// The password input, by its name.
pub const PASS_CSS: &'static str = "input[name='password']";

/// The password input, by its type.
pub const PASS_XPATH: &'static str = "//input[@type='password']";

/// Any button.
pub const SEL_BUTTON: &'static str = "button";

/// The home icon, shown to a signed-in visitor.
pub const SEL_HOME_ICON: &'static str = "svg[aria-label='Home']";

/// The visitor's own picture, shown to a signed-in visitor.
pub const SEL_AVATAR: &'static str = "img[alt*='profile picture']";

/// The ring that marks an account with stories.
pub const SEL_STORY_RING: &'static str = "canvas";

/// The alert that the login form shows.
pub const SEL_ALERT: &'static str = "p[role='alert']";

/// The button that puts off an offer made after login.
pub const XPATH_NOT_NOW: &'static str = "//button[contains(text(), 'Not Now')]";

/// The button that accepts all cookies.
pub const XPATH_ALLOW_ALL: &'static str = "//button[contains(text(), 'Allow all cookies')]";

/// The button that accepts cookies.
pub const XPATH_ALLOW: &'static str = "//button[contains(text(), 'Allow')]";

/// The button that declines cookies.
pub const XPATH_DECLINE: &'static str = "//button[contains(text(), 'Decline')]";

/// The language of a locator.
#[derive(Clone, Copy, Debug, PartialEq, Eq, Structural)]
pub enum LocatorKind {
    Css,
    XPath,
}

/// One way to look for an element.
#[derive(Clone, Copy, Debug)]
pub struct Locator {
    pub kind: LocatorKind,
    pub expr: &'static str,
}

/// What follows a probe of one locator of a chain.
#[derive(Clone, Copy, Debug, PartialEq, Eq, Structural)]
pub enum ChainStep {
    /// The element that the locator at this position found is the one.
    Use(usize),
    /// Probe the locator at this position next.
    Try(usize),
    /// No locator has found the element.
    GiveUp,
}

/// The chain for the username input.
pub open spec fn username_chain() -> Seq<Locator> {
    seq![
        Locator { kind: LocatorKind::Css, expr: USER_CSS },
        Locator { kind: LocatorKind::XPath, expr: USER_XPATH_1 },
        Locator { kind: LocatorKind::XPath, expr: USER_XPATH_2 },
    ]
}

/// The chain for the password input.
pub open spec fn password_chain() -> Seq<Locator> {
    seq![
        Locator { kind: LocatorKind::Css, expr: PASS_CSS },
        Locator { kind: LocatorKind::XPath, expr: PASS_XPATH },
    ]
}

/// The chain for the button that dismisses the cookie notice.
pub open spec fn consent_chain() -> Seq<Locator> {
    seq![
        Locator { kind: LocatorKind::XPath, expr: XPATH_ALLOW_ALL },
        Locator { kind: LocatorKind::XPath, expr: XPATH_ALLOW },
        Locator { kind: LocatorKind::XPath, expr: XPATH_DECLINE },
    ]
}

/// The chain for the marks of a signed-in visitor.
pub open spec fn landmark_chain() -> Seq<Locator> {
    seq![
        Locator { kind: LocatorKind::Css, expr: SEL_HOME_ICON },
        Locator { kind: LocatorKind::Css, expr: SEL_AVATAR },
    ]
}

/// `i` is the position of the first locator that found its element.
pub open spec fn is_first_match(found: Seq<bool>, i: int) -> bool {
    &&& 0 <= i < found.len()
    &&& found[i]
    &&& forall|j: int| 0 <= j < i ==> !found[j]
}

/// What follows the probe of the locator at `index` in a chain of `len`.
pub open spec fn chain_step(index: usize, found: bool, len: usize) -> ChainStep {
    if found {
        ChainStep::Use(index)
    } else if index + 1 < len {
        ChainStep::Try((index + 1) as usize)
    } else {
        ChainStep::GiveUp
    }
}

/// Where a walk along a chain ends that starts at `index`, `found` telling
/// of each locator whether it finds its element.
pub open spec fn walk(found: Seq<bool>, index: usize) -> Option<usize>
    decreases found.len() - index,
{
    if index >= found.len() {
        None
    } else {
        match chain_step(index, found[index as int], found.len() as usize) {
            ChainStep::Use(i) => Some(i),
            ChainStep::Try(k) => walk(found, k),
            ChainStep::GiveUp => None,
        }
    }
}

/// A walk that starts at `index` and has seen no match before it ends at the
/// first match, and ends with nothing where there is no match.
pub proof fn lemma_walk_from(found: Seq<bool>, index: usize)
    requires
        found.len() <= usize::MAX,
        forall|j: int| 0 <= j < index && j < found.len() ==> !found[j],
    ensures
        match walk(found, index) {
            Some(i) => is_first_match(found, i as int),
            None => forall|j: int| 0 <= j < found.len() ==> !found[j],
        },
    decreases found.len() - index,
{
    if index < found.len() && !found[index as int] && index + 1 < found.len() {
        lemma_walk_from(found, (index + 1) as usize);
    }
}

/// The first match wins: a walk from the head of a chain ends at the first
/// locator that finds its element, and gives up only where none does.
pub proof fn lemma_first_match_wins(found: Seq<bool>)
    requires
        found.len() <= usize::MAX,
    ensures
        match walk(found, 0) {
            Some(i) => is_first_match(found, i as int),
            None => forall|j: int| 0 <= j < found.len() ==> !found[j],
        },
{
    lemma_walk_from(found, 0);
}

/// The chain for the username input.
pub fn username_locators() -> (chain: Vec<Locator>)
    ensures
        chain@ == username_chain(),
{
    let mut chain: Vec<Locator> = Vec::new();
    chain.push(Locator { kind: LocatorKind::Css, expr: USER_CSS });
    chain.push(Locator { kind: LocatorKind::XPath, expr: USER_XPATH_1 });
    chain.push(Locator { kind: LocatorKind::XPath, expr: USER_XPATH_2 });
    assert(chain@ =~= username_chain());
    chain
}

/// The chain for the password input.
pub fn password_locators() -> (chain: Vec<Locator>)
    ensures
        chain@ == password_chain(),
{
    let mut chain: Vec<Locator> = Vec::new();
    chain.push(Locator { kind: LocatorKind::Css, expr: PASS_CSS });
    chain.push(Locator { kind: LocatorKind::XPath, expr: PASS_XPATH });
    assert(chain@ =~= password_chain());
    chain
}

/// The chain for the button that dismisses the cookie notice.
pub fn consent_locators() -> (chain: Vec<Locator>)
    ensures
        chain@ == consent_chain(),
{
    let mut chain: Vec<Locator> = Vec::new();
    chain.push(Locator { kind: LocatorKind::XPath, expr: XPATH_ALLOW_ALL });
    chain.push(Locator { kind: LocatorKind::XPath, expr: XPATH_ALLOW });
    chain.push(Locator { kind: LocatorKind::XPath, expr: XPATH_DECLINE });
    assert(chain@ =~= consent_chain());
    chain
}

/// The chain for the marks of a signed-in visitor.
pub fn landmark_locators() -> (chain: Vec<Locator>)
    ensures
        chain@ == landmark_chain(),
{
    let mut chain: Vec<Locator> = Vec::new();
    chain.push(Locator { kind: LocatorKind::Css, expr: SEL_HOME_ICON });
    chain.push(Locator { kind: LocatorKind::Css, expr: SEL_AVATAR });
    assert(chain@ =~= landmark_chain());
    chain
}

/// What follows the probe of the locator at `index` in a chain of `len`
/// locators: use what it found, try the next, or give up.
pub fn after_probe(index: usize, found: bool, len: usize) -> (step: ChainStep)
    ensures
        step == chain_step(index, found, len),
{
    if found {
        ChainStep::Use(index)
    } else if index < len && index + 1 < len {
        ChainStep::Try(index + 1)
    } else {
        ChainStep::GiveUp
    }
}

/// The position of the first locator that found its element.
pub fn first_match(found: &[bool]) -> (r: Option<usize>)
    ensures
        match r {
            Some(i) => is_first_match(found@, i as int),
            None => forall|j: int| 0 <= j < found@.len() ==> !found@[j],
        },
{
    let mut i: usize = 0;
    while i < found.len()
        invariant
            i <= found.len(),
            forall|j: int| 0 <= j < i ==> !found@[j],
        decreases found.len() - i,
    {
        if found[i] {
            return Some(i);
        }
        i += 1;
    }
    None
}

} // verus!
