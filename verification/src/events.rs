//! Events: the context handed to an event handler, and the id of an unnamed
//! floating element that gates on an event.
use vstd::prelude::*;
use crate::text::push_str;

verus! {

/// Extra data carried with a dispatched event: two numeric slots, a text,
/// and the current list index when the event fires inside a `list`.
#[derive(Clone, Debug, Default, PartialEq)]
pub struct EventContext {
    pub text: Option<String>,
    pub code: Option<u32>,
    pub code2: Option<u32>,
    pub list_index: Option<usize>,
}

/// The context of an event fired in list row `list_data` (if any): only the
/// row index is set.
pub fn build_event_context(list_data: &Option<(String, usize)>) -> (r: Option<EventContext>)
    ensures
        match list_data {
            Some((_, index)) => r matches Some(c) && c.text is None && c.code is None && c.code2 is None
                && c.list_index == Some(*index),
            None => r is None,
        },
{
    match list_data {
        Some((_, index)) => Some(EventContext { text: None, code: None, code2: None, list_index: Some(*index) }),
        None => None,
    }
}

/// The decimal digits of `n`.
pub open spec fn decimal(n: nat) -> Seq<char>
    decreases n,
{
    if n < 10 {
        seq![digit_char(n)]
    } else {
        decimal(n / 10).push(digit_char(n % 10))
    }
}

/// The digit character of `d` (below ten).
pub open spec fn digit_char(d: nat) -> char {
    if d == 0 {
        '0'
    } else if d == 1 {
        '1'
    } else if d == 2 {
        '2'
    } else if d == 3 {
        '3'
    } else if d == 4 {
        '4'
    } else if d == 5 {
        '5'
    } else if d == 6 {
        '6'
    } else if d == 7 {
        '7'
    } else if d == 8 {
        '8'
    } else {
        '9'
    }
}

fn digit_of(d: u64) -> (c: char)
    requires
        d < 10,
    ensures
        c == digit_char(d as nat),
{
    if d == 0 {
        '0'
    } else if d == 1 {
        '1'
    } else if d == 2 {
        '2'
    } else if d == 3 {
        '3'
    } else if d == 4 {
        '4'
    } else if d == 5 {
        '5'
    } else if d == 6 {
        '6'
    } else if d == 7 {
        '7'
    } else if d == 8 {
        '8'
    } else {
        '9'
    }
}

/// Appends the decimal digits of `n` to `out`.
pub fn push_decimal(out: &mut Vec<char>, n: u64)
    ensures
        final(out)@ == old(out)@ + decimal(n as nat),
    decreases n,
{
    if n < 10 {
        out.push(digit_of(n));
        assert(decimal(n as nat) =~= seq![digit_char(n as nat)]);
    } else {
        push_decimal(out, n / 10);
        out.push(digit_of(n % 10));
        assert(old(out)@ + decimal(n as nat) =~= old(out)@ + decimal((n / 10) as nat) + seq![digit_char((n % 10) as nat)]);
    }
}

/// The id of the `counter`-th unnamed floating element that gates on an
/// event: `__telera_gate::<counter>`, or inside list row `index` of the
/// list `list`, `__telera_gate::<list>#<index>::<counter>`.
pub open spec fn gate_id_name(list_data: Option<(Seq<char>, nat)>, counter: nat) -> Seq<char> {
    match list_data {
        Some((list, index)) => "__telera_gate::"@ + list + seq!['#'] + decimal(index) + "::"@ + decimal(counter),
        None => "__telera_gate::"@ + decimal(counter),
    }
}

/// The id of an unnamed floating element that gates on an event (see
/// [`gate_id_name`]).
pub fn synthetic_gate_id_name(list_data: &Option<(String, usize)>, counter: u32) -> (r: String)
    ensures
        r@ == gate_id_name(
            match list_data {
                Some((l, i)) => Some((l@, *i as nat)),
                None => None,
            },
            counter as nat,
        ),
{
    let mut out: Vec<char> = Vec::new();
    push_str(&mut out, "__telera_gate::");
    match list_data {
        Some((list, index)) => {
            push_str(&mut out, list.as_str());
            out.push('#');
            push_decimal(&mut out, *index as u64);
            push_str(&mut out, "::");
            push_decimal(&mut out, counter as u64);
            assert(out@ =~= "__telera_gate::"@ + list@ + seq!['#'] + decimal(*index as nat) + "::"@ + decimal(counter as nat));
        },
        None => {
            push_decimal(&mut out, counter as u64);
            assert(out@ =~= "__telera_gate::"@ + decimal(counter as nat));
        },
    }
    crate::text::string_of(out.as_slice())
}

} // verus!
