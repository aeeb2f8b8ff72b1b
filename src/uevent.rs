use vstd::prelude::*;
use vstd::utf8::{decode_utf8, valid_utf8};

verus! {

/// Why a decoder rejected a uevent.
#[derive(PartialEq, Eq, Structural, Clone, Copy, Debug)]
pub enum DecodeError {
    /// The bytes are not UTF-8.
    InvalidUtf8,
    /// The event belongs to another subsystem.
    ForeignSubsystem,
    /// An entry that the decoder needs is missing.
    MissingField,
}

/// Whether `t` occurs in `s` at index `i`.
pub open spec fn occurs_at(s: Seq<char>, t: Seq<char>, i: int) -> bool {
    0 <= i && i + t.len() <= s.len() && s.subrange(i, i + t.len()) == t
}

/// The first index at or after `from` where `t` occurs in `s`.
pub open spec fn first_index_from(s: Seq<char>, t: Seq<char>, from: int) -> Option<int>
    decreases s.len() + 1 - from,
{
    if from < 0 || from + t.len() > s.len() {
        None
    } else if occurs_at(s, t, from) {
        Some(from)
    } else {
        first_index_from(s, t, from + 1)
    }
}

/// The first index where `t` occurs in `s`.
pub open spec fn first_index(s: Seq<char>, t: Seq<char>) -> Option<int> {
    first_index_from(s, t, 0)
}

/// Entries of a uevent end with NUL where the text holds one, else with a newline.
pub open spec fn entry_end(s: Seq<char>) -> char {
    if first_index(s, seq!['\0']) is Some { '\0' } else { '\n' }
}

/// The text that precedes the value of entry `name`: the name and `=`,
/// but `@` alone for the device path.
pub open spec fn entry_prefix(name: Seq<char>) -> Seq<char> {
    if name == seq!['@'] { seq!['@'] } else { name.push('=') }
}

/// The value of entry `name` in the uevent text `s`: what follows its first
/// prefix up to the next end of entry; none where either is missing.
pub open spec fn element_val(s: Seq<char>, name: Seq<char>) -> Option<Seq<char>> {
    let prefix = entry_prefix(name);
    match first_index(s, prefix) {
        None => None,
        Some(i) => {
            let rest = s.skip(i + prefix.len());
            match first_index(rest, seq![entry_end(s)]) {
                None => None,
                Some(j) => Some(rest.take(j)),
            }
        },
    }
}

/// The characters of `s` in order.
pub(crate) fn chars_of(s: &str) -> (r: Vec<char>)
    ensures
        r@ == s@,
{
    let mut v: Vec<char> = Vec::new();
    for c in it: s.chars()
        invariant
            v@ == it.seq().take(it.index() as int),
    {
        v.push(c);
    }
    v
}

/// Relies on `String::from_iter` over chars: the string of exactly these characters.
#[verifier::external_body]
pub(crate) fn string_of(cs: &[char]) -> (r: String)
    ensures
        r@ == cs@,
{
    cs.iter().collect()
}

/// Relies on `String::from_utf8`: succeeds exactly on valid UTF-8 and
/// then holds the characters that the bytes encode.
#[verifier::external_body]
pub(crate) fn utf8_text(data: &Vec<u8>) -> (r: Option<String>)
    ensures
        r is Some <==> valid_utf8(data@),
        r matches Some(s) ==> s@ == decode_utf8(data@),
{
    String::from_utf8(data.clone()).ok()
}

fn matches_at(s: &Vec<char>, t: &Vec<char>, i: usize) -> (r: bool)
    requires
        i + t@.len() <= s@.len(),
    ensures
        r == occurs_at(s@, t@, i as int),
{
    let n = s.len();
    let mut k: usize = 0;
    while k < t.len()
        invariant
            n == s@.len(),
            k <= t@.len(),
            i + t@.len() <= s@.len(),
            forall|m: int| 0 <= m < k ==> s@[i + m] == t@[m],
        decreases t@.len() - k,
    {
        if s[i + k] != t[k] {
            assert(s@.subrange(i as int, i + t@.len())[k as int] == s@[i + k]);
            return false;
        }
        k += 1;
    }
    assert(s@.subrange(i as int, i + t@.len()) =~= t@);
    true
}

/// The first index at or after `from` where `t` occurs in `s`.
fn find_from(s: &Vec<char>, t: &Vec<char>, from: usize) -> (r: Option<usize>)
    ensures
        r matches Some(i) ==> first_index_from(s@, t@, from as int) == Some(i as int)
            && occurs_at(s@, t@, i as int),
        r is None ==> first_index_from(s@, t@, from as int) is None,
{
    if t.len() > s.len() {
        return None;
    }
    let last = s.len() - t.len();
    let mut i = from;
    while i <= last
        invariant
            from <= i,
            last + t@.len() == s@.len(),
            first_index_from(s@, t@, from as int) == first_index_from(s@, t@, i as int),
        decreases last + 1 - i,
    {
        if matches_at(s, t, i) {
            return Some(i);
        }
        if i == last {
            assert(first_index_from(s@, t@, i + 1) is None);
            return None;
        }
        i += 1;
    }
    None
}

/// Whether `t` occurs in `s`.
pub fn contains_text(s: &str, t: &str) -> (r: bool)
    ensures
        r == (first_index(s@, t@) is Some),
{
    let sc = chars_of(s);
    let tc = chars_of(t);
    find_from(&sc, &tc, 0).is_some()
}

/// The text of a uevent that belongs to the subsystem whose tag is
/// `subsystem_tag`: its bytes decoded, or why it is not such an event.
pub open spec fn subsystem_text(data: Seq<u8>, subsystem_tag: Seq<char>) -> Result<Seq<char>, DecodeError> {
    if !valid_utf8(data) {
        Err(DecodeError::InvalidUtf8)
    } else if first_index(decode_utf8(data), subsystem_tag) is None {
        Err(DecodeError::ForeignSubsystem)
    } else {
        Ok(decode_utf8(data))
    }
}

/// Decodes `data` and checks that it carries `subsystem_tag`.
pub fn subsystem_event(data: &Vec<u8>, subsystem_tag: &str) -> (r: Result<String, DecodeError>)
    ensures
        r matches Ok(s) ==> subsystem_text(data@, subsystem_tag@) == Ok::<Seq<char>, DecodeError>(s@),
        r matches Err(e) ==> subsystem_text(data@, subsystem_tag@) == Err::<Seq<char>, DecodeError>(e),
{
    match utf8_text(data) {
        None => Err(DecodeError::InvalidUtf8),
        Some(s) => {
            if contains_text(&s, subsystem_tag) {
                Ok(s)
            } else {
                Err(DecodeError::ForeignSubsystem)
            }
        },
    }
}

/// Extracts the value of entry `name` from the uevent text `uevent_str`.
/// Entries end with NUL where the text holds one, else with a newline;
/// `@` names the device path that leads the text.
pub fn get_element_val(uevent_str: &str, name: &str) -> (r: Option<String>)
    ensures
        r is Some <==> element_val(uevent_str@, name@) is Some,
        r matches Some(v) ==> v@ == element_val(uevent_str@, name@)->0,
{
    let s = chars_of(uevent_str);
    let n = s.len();
    let nul = vec!['\0'];
    assert(nul@ =~= seq!['\0']);
    let end = if find_from(&s, &nul, 0).is_some() { '\0' } else { '\n' };
    let mut prefix = chars_of(name);
    if !(prefix.len() == 1 && prefix[0] == '@') {
        prefix.push('=');
    }
    assert(prefix@ == entry_prefix(name@)) by {
        if name@ == seq!['@'] {
        } else {
            assert(!(name@.len() == 1 && name@[0] == '@')) by {
                if name@.len() == 1 && name@[0] == '@' {
                    assert(name@ =~= seq!['@']);
                }
            }
        }
    }
    match find_from(&s, &prefix, 0) {
        None => None,
        Some(i) => {
            let start = i + prefix.len();
            let mut rest: Vec<char> = Vec::new();
            let mut k = start;
            while k < s.len()
                invariant
                    start <= k <= s@.len(),
                    rest@ == s@.subrange(start as int, k as int),
                decreases s@.len() - k,
            {
                rest.push(s[k]);
                k += 1;
            }
            assert(rest@ =~= s@.skip(start as int));
            let ends = vec![end];
            assert(ends@ =~= seq![entry_end(s@)]);
            match find_from(&rest, &ends, 0) {
                None => None,
                Some(j) => {
                    let v = string_of(rest.as_slice().split_at(j).0);
                    assert(v@ =~= rest@.take(j as int));
                    Some(v)
                },
            }
        },
    }
}

} // verus!
