use vstd::prelude::*;
use crate::text::{decimal, parse_unsigned, u64_text, parse_at_most, lemma_decimal_roundtrip, is_digit};

verus! {

/// The part of `s` before its first `-` (all of `s` when it has none).
pub open spec fn before_dash(s: Seq<char>) -> Seq<char>
    decreases s.len(),
{
    if s.len() == 0 {
        s
    } else if s[0] == '-' {
        Seq::empty()
    } else {
        seq![s[0]] + before_dash(s.drop_first())
    }
}

/// The part of `s` after its first `-`.
pub open spec fn after_dash(s: Seq<char>) -> Seq<char> {
    s.subrange(before_dash(s).len() as int + 1, s.len() as int)
}

/// What a button press asks for: a yes or no ballot on the vote at `index`.
pub struct ButtonPress {
    pub yes: bool,
    pub index: usize,
}

/// How a button's custom id is read: the part before the first `-` is `Y`
/// for a yes ballot (anything else is a no ballot), and the part after it, up
/// to a second `-` if there is one, is the vote's index; an index that does
/// not parse as a `usize` reads as 0.
pub open spec fn press_of(s: Seq<char>) -> ButtonPress {
    ButtonPress {
        yes: before_dash(s) == seq!['Y'],
        index: match parse_unsigned(before_dash(after_dash(s)), usize::MAX as nat) {
            Some(v) => v as usize,
            None => 0,
        },
    }
}

/// The custom id of the yes (`Y-{index}`) or no (`N-{index}`) button of the
/// vote at `index`.
pub open spec fn button_id(yes: bool, index: nat) -> Seq<char> {
    seq![if yes { 'Y' } else { 'N' }, '-'] + decimal(index)
}

proof fn lemma_before_dash(s: Seq<char>)
    ensures
        before_dash(s).len() <= s.len(),
        before_dash(s) =~= s.subrange(0, before_dash(s).len() as int),
        forall|i: int| 0 <= i < before_dash(s).len() ==> s[i] != '-',
        before_dash(s).len() < s.len() ==> s[before_dash(s).len() as int] == '-',
        !s.contains('-') ==> before_dash(s) == s,
    decreases s.len(),
{
    if s.len() == 0 {
    } else if s[0] == '-' {
    } else {
        let t = s.drop_first();
        lemma_before_dash(t);
        assert forall|i: int| 0 <= i < before_dash(s).len() implies s[i] != '-' by {
            if i > 0 {
                assert(s[i] == t[i - 1]);
            }
        }
        if !s.contains('-') {
            assert(!t.contains('-')) by {
                if t.contains('-') {
                    let k = choose|k: int| 0 <= k < t.len() && t[k] == '-';
                    assert(s[k + 1] == '-');
                }
            }
            assert(before_dash(s) =~= s);
        }
    }
}

/// The position of the first `-` in `s`, or its length when it has none.
fn dash_position(s: &str) -> (k: usize)
    ensures
        k == before_dash(s@).len(),
        k <= s@.len(),
{
    proof {
        lemma_before_dash(s@);
    }
    let len = s.unicode_len();
    let mut i: usize = 0;
    while i < len
        invariant
            len == s@.len(),
            0 <= i <= len,
            forall|j: int| 0 <= j < i ==> s@[j] != '-',
            before_dash(s@).len() <= s@.len(),
            forall|j: int| 0 <= j < before_dash(s@).len() ==> s@[j] != '-',
            before_dash(s@).len() < s@.len() ==> s@[before_dash(s@).len() as int] == '-',
        decreases len - i,
    {
        if s.get_char(i) == '-' {
            return i;
        }
        i = i + 1;
    }
    i
}

/// Reads a button's custom id. Ids without a `-` are not button ids of
/// this bot and are refused by the caller's precondition.
pub fn read_custom_id(s: &str) -> (p: ButtonPress)
    requires
        s@.contains('-'),
    ensures
        p == press_of(s@),
{
    proof {
        lemma_before_dash(s@);
    }
    let len = s.unicode_len();
    let k = dash_position(s);
    assert(k < len) by {
        if k >= len {
            let j = choose|j: int| 0 <= j < s@.len() && s@[j] == '-';
        }
    }
    let head = s.substring_char(0, k);
    let yes = head.unicode_len() == 1 && head.get_char(0) == 'Y';
    assert(yes == (before_dash(s@) == seq!['Y'])) by {
        if before_dash(s@) == seq!['Y'] {
            assert(head@ =~= before_dash(s@));
        }
        if yes {
            assert(head@ =~= seq!['Y']);
        }
    }
    let tail = s.substring_char(k + 1, len);
    assert(tail@ =~= after_dash(s@));
    let m = dash_position(tail);
    let field = tail.substring_char(0, m);
    proof {
        lemma_before_dash(tail@);
    }
    assert(field@ =~= before_dash(after_dash(s@)));
    let index: usize = match parse_at_most(field, usize::MAX as u64) {
        Some(v) => v as usize,
        None => 0,
    };
    ButtonPress { yes, index }
}

/// The custom id of the yes or no button of the vote at `index`.
pub fn custom_id(yes: bool, index: usize) -> (s: String)
    ensures
        s@ == button_id(yes, index as nat),
{
    let mut s = if yes {
        String::from_str("Y-")
    } else {
        String::from_str("N-")
    };
    proof {
        reveal_strlit("Y-");
        reveal_strlit("N-");
    }
    let digits = u64_text(index as u64);
    s.append(digits.as_str());
    assert(s@ =~= button_id(yes, index as nat));
    s
}

/// Reading the custom id of a vote's button gives back the ballot and the
/// vote that the button was made for.
pub proof fn law_button_id_roundtrip(yes: bool, index: usize)
    ensures
        button_id(yes, index as nat).contains('-'),
        press_of(button_id(yes, index as nat)) == (ButtonPress { yes, index }),
{
    let id = button_id(yes, index as nat);
    let d = decimal(index as nat);
    lemma_decimal_roundtrip(index as nat);
    assert(id[1] == '-');
    assert(before_dash(id.drop_first().drop_first()) == before_dash(d)) by {
        assert(id.drop_first().drop_first() =~= d);
    }
    assert(before_dash(id.drop_first()) =~= Seq::<char>::empty());
    assert(before_dash(id) =~= seq![id[0]]);
    assert(after_dash(id) =~= d);
    assert(!d.contains('-')) by {
        if d.contains('-') {
            let k = choose|k: int| 0 <= k < d.len() && d[k] == '-';
            assert(is_digit(d[k]));
        }
    }
    lemma_before_dash(d);
    assert(seq![id[0]] == seq!['Y'] <==> yes) by {
        if yes {
        } else {
            assert(seq![id[0]][0] != 'Y');
        }
    }
}

} // verus!
