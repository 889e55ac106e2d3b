use vstd::prelude::*;
use vstd::string::*;
use crate::keys::{is_ignored_key, is_pure_modifier, KeyEvent, KeyInfo, KeyNames, VK_BACK, VK_SPACE};

verus! {

/// What `str::to_lowercase` makes of a string.
pub uninterp spec fn lower_of(s: Seq<char>) -> Seq<char>;

/// Relies on `str::to_lowercase`: the result depends on the characters alone.
#[verifier::external_body]
fn lowercase(s: &str) -> (r: String)
    ensures
        r@ == lower_of(s@),
{
    s.to_lowercase()
}

/// Relies on `String::from(char)`: a string holding exactly that character.
#[verifier::external_body]
fn char_string(c: char) -> (r: String)
    ensures
        r@ == seq![c],
{
    String::from(c)
}

/// The marker put before a token typed with control held.
pub open spec fn control_prefix() -> Seq<char> {
    seq!['C', 'n', 't', 'r', 'l', '+']
}

/// A token body, behind the control marker when control was held.
pub open spec fn with_control(cntrl: bool, body: Seq<char>) -> Seq<char> {
    if cntrl {
        control_prefix() + body
    } else {
        body
    }
}

/// Case policy: with caps-lock off a name is folded to lower case, with it
/// on the lookup's own case is kept.
pub open spec fn case_folded(s: Seq<char>, caps: bool) -> Seq<char> {
    if caps {
        s
    } else {
        lower_of(s)
    }
}

/// The looked-up part of a token, before any control prefix: the key's
/// character if the layout maps it to one, else the scan code's name (its
/// shifted variant, kept as it is, when shift was held and one exists).
pub open spec fn resolved_body(k: KeyInfo, n: KeyNames) -> Option<Seq<char>> {
    match n.key_char {
        Some(c) => Some(case_folded(seq![c], k.caps)),
        None => match n.scan_name {
            Some(name) => match n.shift_name {
                Some(shifted) if k.shift => Some(shifted@),
                _ => Some(case_folded(name@, k.caps)),
            },
            None => None,
        },
    }
}

/// The text that one key press contributes. Pure modifiers give nothing;
/// space and backspace give their fixed character whatever the modifiers;
/// a key that no lookup resolves gives nothing.
pub open spec fn token_of(k: KeyInfo, n: KeyNames) -> Seq<char> {
    if is_pure_modifier(k.vk_code) {
        seq![]
    } else if k.vk_code == VK_SPACE {
        seq![' ']
    } else if k.vk_code == VK_BACK {
        seq!['\x08']
    } else {
        match resolved_body(k, n) {
            Some(body) => with_control(k.cntrl, body),
            None => seq![],
        }
    }
}

/// The text of a sequence of key presses: their tokens in arrival order.
pub open spec fn render(es: Seq<KeyEvent>) -> Seq<char>
    decreases es.len(),
{
    if es.len() == 0 {
        seq![]
    } else {
        render(es.drop_last()) + token_of(es.last().key, es.last().names)
    }
}

fn fold_case(s: String, caps: bool) -> (r: String)
    ensures
        r@ == case_folded(s@, caps),
{
    if caps {
        s
    } else {
        lowercase(s.as_str())
    }
}

fn resolve_body(key: &KeyInfo, names: &KeyNames) -> (r: Option<String>)
    ensures
        r matches Some(s) ==> resolved_body(*key, *names) == Some(s@),
        r is None ==> resolved_body(*key, *names) is None,
{
    match &names.key_char {
        Some(c) => Some(fold_case(char_string(*c), key.caps)),
        None => match &names.scan_name {
            Some(name) => match &names.shift_name {
                Some(shifted) if key.shift => Some(shifted.clone()),
                _ => Some(fold_case(name.clone(), key.caps)),
            },
            None => None,
        },
    }
}

/// Resolves one key press into its token.
pub fn key_token(key: &KeyInfo, names: &KeyNames) -> (r: String)
    ensures
        r@ == token_of(*key, *names),
{
    if is_ignored_key(key.vk_code) {
        String::new()
    } else if key.vk_code == VK_SPACE {
        let space = String::from_str(" ");
        proof {
            reveal_strlit(" ");
        }
        assert(space@ =~= seq![' ']);
        space
    } else if key.vk_code == VK_BACK {
        let back = String::from_str("\x08");
        proof {
            reveal_strlit("\x08");
        }
        assert(back@ =~= seq!['\x08']);
        back
    } else {
        match resolve_body(key, names) {
            Some(body) => if key.cntrl {
                let prefix = String::from_str("Cntrl+");
                proof {
                    reveal_strlit("Cntrl+");
                }
                assert(prefix@ =~= control_prefix());
                prefix.concat(body.as_str())
            } else {
                body
            },
            None => String::new(),
        }
    }
}

/// Renders buffered key presses to text, in their order.
pub fn keycodes_to_string(events: &Vec<KeyEvent>) -> (r: String)
    ensures
        r@ == render(events@),
{
    let mut out = String::new();
    let mut i: usize = 0;
    while i < events.len()
        invariant
            i <= events@.len(),
            out@ == render(events@.take(i as int)),
        decreases events@.len() - i,
    {
        let t = key_token(&events[i].key, &events[i].names);
        assert(events@.take(i + 1).drop_last() =~= events@.take(i as int));
        out.append(t.as_str());
        i = i + 1;
    }
    assert(events@.take(i as int) =~= events@);
    out
}

} // verus!
