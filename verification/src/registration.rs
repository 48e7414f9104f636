//! Choosing the global hotkey: the configured one first, then fallbacks,
//! since the configured one is often taken by another launcher.
use vstd::prelude::*;
use global_hotkey::hotkey::{Code, HotKey};
use global_hotkey::GlobalHotKeyManager;
use crate::hotkey::HotKeySpec;
use crate::providers::opt_view;
use crate::text::concat;

verus! {

#[verifier::external_type_specification]
#[verifier::external_body]
pub struct ExHotKey(HotKey);

#[verifier::external_type_specification]
#[verifier::external_body]
pub struct ExGlobalHotKeyManager(GlobalHotKeyManager);

/// What global-hotkey's `HotKey::from_str` makes of `text` (its id, its
/// modifiers' bits and whether its key is Space), or `None` when it rejects it.
pub uninterp spec fn hotkey_parse(text: Seq<char>) -> Option<HotKeySpec>;

/// The message (`Display`) of the error that `HotKey::from_str` returns for `text`.
pub uninterp spec fn hotkey_parse_error(text: Seq<char>) -> Seq<char>;

/// `text.parse::<HotKey>()`, with the parsed hotkey described by its id,
/// its modifiers' bits and whether its key is Space; the error by its message.
#[verifier::external_body]
fn parse_hotkey(text: &str) -> (r: Result<(HotKey, HotKeySpec), String>)
    ensures
        r is Ok <==> hotkey_parse(text@) is Some,
        r matches Ok(p) ==> hotkey_parse(text@) == Some(p.1),
        r matches Err(e) ==> e@ == hotkey_parse_error(text@),
{
    match text.parse::<HotKey>() {
        Ok(h) => Ok((h, HotKeySpec { id: h.id(), mods: h.mods.bits(), key_is_space: h.key == Code::Space })),
        Err(e) => Err(e.to_string()),
    }
}

/// `GlobalHotKeyManager::register`, with the error given by its message.
/// Whether it succeeds depends on the system (another application may hold
/// the key), so nothing is stated of the outcome.
#[verifier::external_body]
fn register(manager: &GlobalHotKeyManager, hotkey: HotKey) -> Result<(), String> {
    match manager.register(hotkey) {
        Ok(()) => Ok(()),
        Err(e) => Err(e.to_string()),
    }
}

/// The hotkey that `text` describes, if global-hotkey accepts it.
pub fn parse_hotkey_spec(text: &str) -> (r: Option<HotKeySpec>)
    ensures
        r == hotkey_parse(text@),
{
    match parse_hotkey(text) {
        Ok(p) => Some(p.1),
        Err(_) => None,
    }
}

/// The hotkeys tried, in order: the configured one, then three fallbacks.
pub open spec fn hotkey_candidate(configured: Seq<char>, i: int) -> Seq<char> {
    if i == 0 {
        configured
    } else if i == 1 {
        "ctrl+alt+space"@
    } else if i == 2 {
        "ctrl+shift+space"@
    } else {
        "ctrl+alt+k"@
    }
}

/// Number of hotkeys tried.
pub const HOTKEY_CANDIDATES: usize = 4;

/// The `i`-th hotkey to try.
fn candidate_text<'a>(configured: &'a str, i: usize) -> (r: &'a str)
    ensures
        r@ == hotkey_candidate(configured@, i as int),
{
    if i == 0 {
        configured
    } else if i == 1 {
        "ctrl+alt+space"
    } else if i == 2 {
        "ctrl+shift+space"
    } else {
        "ctrl+alt+k"
    }
}

/// What became of one hotkey that was tried.
pub enum HotkeyOutcome {
    /// global-hotkey could not parse it; the message of its parse error.
    Unparsable(String),
    /// Registering it failed (usually another application holds it); the
    /// message of the error.
    Taken(String),
    /// It is registered.
    Registered,
}

/// Notice shown when a fallback hotkey is in use.
pub open spec fn fallback_notice(configured: Seq<char>, active: Seq<char>) -> Seq<char> {
    "'"@ + configured + "' は使用できないため、ホットキーは '"@ + active + "' になっています"@
}

/// Notice shown when no hotkey could be registered; `err` explains why the
/// configured one failed (empty if it was not tried).
pub open spec fn failure_notice(err: Seq<char>) -> Seq<char> {
    "ホットキーを登録できませんでした: "@ + err + "。タスクトレイのアイコンから開けます"@
}

/// Why the configured hotkey (the first one tried) failed.
pub open spec fn configured_error(configured: Seq<char>, outcomes: Seq<HotkeyOutcome>) -> Seq<char> {
    if outcomes.len() == 0 {
        Seq::empty()
    } else {
        match outcomes[0] {
            HotkeyOutcome::Unparsable(e) => "'"@ + configured + "' を解釈できません: "@ + e@,
            HotkeyOutcome::Taken(e) => "'"@ + configured + "' は他のアプリが使用中です ("@ + e@ + ")"@,
            HotkeyOutcome::Registered => Seq::empty(),
        }
    }
}

/// Outcome `k` is the first that registered a hotkey.
pub open spec fn first_registered(outcomes: Seq<HotkeyOutcome>, k: int) -> bool {
    &&& 0 <= k < outcomes.len()
    &&& outcomes[k] is Registered
    &&& forall|j: int| 0 <= j < k ==> !(#[trigger] outcomes[j] is Registered)
}

/// (active hotkey, user-facing notice) when the candidates were tried in
/// order with `outcomes`: the first registered candidate is kept, with a
/// notice when it is a fallback; when none registered, there is no active
/// hotkey and the notice says why the configured one failed.
pub open spec fn settled(configured: Seq<char>, outcomes: Seq<HotkeyOutcome>) -> (Option<Seq<char>>, Option<Seq<char>>) {
    if exists|k: int| first_registered(outcomes, k) {
        let k = choose|k: int| first_registered(outcomes, k);
        let active = hotkey_candidate(configured, k);
        (Some(active), if k == 0 { None } else { Some(fallback_notice(configured, active)) })
    } else {
        (None, Some(failure_notice(configured_error(configured, outcomes))))
    }
}

/// `outcomes` are what trying the candidates in order can give: one per
/// candidate tried, starting with the configured one; a candidate is
/// unparsable exactly when global-hotkey rejects it (with its error message);
/// trying stops at the first registered one and goes on to the last
/// candidate otherwise.
pub open spec fn attempted(configured: Seq<char>, outcomes: Seq<HotkeyOutcome>) -> bool {
    &&& 1 <= outcomes.len() <= HOTKEY_CANDIDATES
    &&& forall|k: int|
        0 <= k < outcomes.len() ==> ((#[trigger] outcomes[k]) is Unparsable <==> hotkey_parse(
            hotkey_candidate(configured, k),
        ) is None)
    &&& forall|k: int|
        0 <= k < outcomes.len() ==> ((#[trigger] outcomes[k]) matches HotkeyOutcome::Unparsable(e) ==> e@
            == hotkey_parse_error(hotkey_candidate(configured, k)))
    &&& forall|k: int| 0 <= k < outcomes.len() - 1 ==> !((#[trigger] outcomes[k]) is Registered)
    &&& outcomes.len() < HOTKEY_CANDIDATES ==> outcomes.last() is Registered
}

/// (active hotkey, user-facing notice) after trying the candidates in order
/// (the configured hotkey, then "ctrl+alt+space", "ctrl+shift+space",
/// "ctrl+alt+k") with the given outcomes.
pub fn settle_hotkey(configured: &str, outcomes: &[HotkeyOutcome]) -> (r: (Option<String>, Option<String>))
    ensures
        (opt_view(r.0), opt_view(r.1)) == settled(configured@, outcomes@),
{
    let mut found: Option<usize> = None;
    let mut k: usize = 0;
    while k < outcomes.len()
        invariant
            k <= outcomes@.len(),
            found matches Some(f) ==> first_registered(outcomes@, f as int),
            found is None ==> forall|j: int| 0 <= j < k ==> !(#[trigger] outcomes@[j] is Registered),
        decreases outcomes@.len() - k,
    {
        if found.is_none() {
            if let HotkeyOutcome::Registered = outcomes[k] {
                found = Some(k);
            }
        }
        k = k + 1;
    }
    match found {
        Some(f) => {
            proof {
                assert forall|k2: int| first_registered(outcomes@, k2) implies k2 == f as int by {
                    if k2 < f {
                        assert(!(outcomes@[k2] is Registered));
                    } else if k2 > f {
                        assert(!(outcomes@[f as int] is Registered));
                    }
                }
            }
            let active = candidate_text(configured, f);
            let notice = if f == 0 {
                None
            } else {
                Some(
                    concat(
                        concat(concat(concat("'", configured).as_str(), "' は使用できないため、ホットキーは '").as_str(), active).as_str(),
                        "' になっています",
                    ),
                )
            };
            (Some(active.to_owned()), notice)
        },
        None => {
            let err = if outcomes.len() == 0 {
                String::new()
            } else {
                match &outcomes[0] {
                    HotkeyOutcome::Unparsable(e) => concat(
                        concat(concat("'", configured).as_str(), "' を解釈できません: ").as_str(),
                        e.as_str(),
                    ),
                    HotkeyOutcome::Taken(e) => concat(
                        concat(concat(concat("'", configured).as_str(), "' は他のアプリが使用中です (").as_str(), e.as_str()).as_str(),
                        ")",
                    ),
                    HotkeyOutcome::Registered => String::new(),
                }
            };
            assert(err@ == configured_error(configured@, outcomes@));
            let notice = concat(
                concat("ホットキーを登録できませんでした: ", err.as_str()).as_str(),
                "。タスクトレイのアイコンから開けます",
            );
            (None, Some(notice))
        },
    }
}

/// Try the configured hotkey, then fallbacks (the configured one is often
/// taken by another launcher). Returns (active hotkey, user-facing notice).
/// Which hotkeys the system lets us register is not known in advance, so the
/// result is `settle_hotkey`'s for what trying them gave.
pub fn register_hotkey(manager: &GlobalHotKeyManager, configured: &str) -> (r: (
    Option<String>,
    Option<String>,
))
    ensures
        exists|outcomes: Seq<HotkeyOutcome>|
            #[trigger] attempted(configured@, outcomes) && (opt_view(r.0), opt_view(r.1)) == settled(
                configured@,
                outcomes,
            ),
{
    let mut outcomes: Vec<HotkeyOutcome> = Vec::new();
    let mut done = false;
    let mut i: usize = 0;
    while i < HOTKEY_CANDIDATES && !done
        invariant
            i <= HOTKEY_CANDIDATES,
            outcomes@.len() == i,
            done ==> i > 0 && outcomes@[i - 1] is Registered,
            forall|k: int|
                0 <= k < i ==> ((#[trigger] outcomes@[k]) is Unparsable <==> hotkey_parse(
                    hotkey_candidate(configured@, k),
                ) is None),
            forall|k: int|
                0 <= k < i ==> ((#[trigger] outcomes@[k]) matches HotkeyOutcome::Unparsable(e) ==> e@
                    == hotkey_parse_error(hotkey_candidate(configured@, k))),
            forall|k: int| 0 <= k < i && !(done && k == i - 1) ==> !((#[trigger] outcomes@[k]) is Registered),
        decreases HOTKEY_CANDIDATES - i,
    {
        let text = candidate_text(configured, i);
        let outcome = match parse_hotkey(text) {
            Err(e) => HotkeyOutcome::Unparsable(e),
            Ok(p) => match register(manager, p.0) {
                Ok(()) => HotkeyOutcome::Registered,
                Err(e) => HotkeyOutcome::Taken(e),
            },
        };
        done = match outcome {
            HotkeyOutcome::Registered => true,
            _ => false,
        };
        outcomes.push(outcome);
        i = i + 1;
    }
    proof {
        assert(attempted(configured@, outcomes@));
    }
    settle_hotkey(configured, outcomes.as_slice())
}

/// The hotkeys are tried in the order the configuration documents: the
/// configured one, then ctrl+alt+space, ctrl+shift+space and ctrl+alt+k. So
/// when the configured hotkey is taken and the first fallback registers, the
/// active hotkey is ctrl+alt+space, with the notice naming both.
pub proof fn law_fallbacks_in_order(configured: Seq<char>, busy: String)
    ensures
        hotkey_candidate(configured, 0) == configured,
        hotkey_candidate(configured, 1) == seq!['c', 't', 'r', 'l', '+', 'a', 'l', 't', '+', 's', 'p', 'a', 'c', 'e'],
        hotkey_candidate(configured, 2) == seq![
            'c',
            't',
            'r',
            'l',
            '+',
            's',
            'h',
            'i',
            'f',
            't',
            '+',
            's',
            'p',
            'a',
            'c',
            'e',
        ],
        hotkey_candidate(configured, 3) == seq!['c', 't', 'r', 'l', '+', 'a', 'l', 't', '+', 'k'],
        settled(configured, seq![HotkeyOutcome::Taken(busy), HotkeyOutcome::Registered]) == (
            Some(seq!['c', 't', 'r', 'l', '+', 'a', 'l', 't', '+', 's', 'p', 'a', 'c', 'e']),
            Some(fallback_notice(configured, seq!['c', 't', 'r', 'l', '+', 'a', 'l', 't', '+', 's', 'p', 'a', 'c', 'e'])),
        ),
        settled(configured, seq![HotkeyOutcome::Registered]) == (Some(configured), None::<Seq<char>>),
{
    reveal_strlit("ctrl+alt+space");
    reveal_strlit("ctrl+shift+space");
    reveal_strlit("ctrl+alt+k");
    assert("ctrl+alt+space"@ =~= seq!['c', 't', 'r', 'l', '+', 'a', 'l', 't', '+', 's', 'p', 'a', 'c', 'e']);
    assert("ctrl+shift+space"@ =~= seq![
        'c',
        't',
        'r',
        'l',
        '+',
        's',
        'h',
        'i',
        'f',
        't',
        '+',
        's',
        'p',
        'a',
        'c',
        'e',
    ]);
    assert("ctrl+alt+k"@ =~= seq!['c', 't', 'r', 'l', '+', 'a', 'l', 't', '+', 'k']);
    let o1 = seq![HotkeyOutcome::Taken(busy), HotkeyOutcome::Registered];
    assert(first_registered(o1, 1));
    assert forall|k: int| first_registered(o1, k) implies k == 1 by {}
    let o0 = seq![HotkeyOutcome::Registered];
    assert(first_registered(o0, 0));
    assert forall|k: int| first_registered(o0, k) implies k == 0 by {}
}

} // verus!
