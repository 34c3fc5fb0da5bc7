//! The credential pool, the persisted orchestrator state, and the state
//! file's codec.
//!
//! The state record is framed as the decimal credential index and the two
//! session names, each name preceded by its decimal character count, so any
//! name content round-trips.  Decoding is total: text that does not frame,
//! or whose numbers do not parse, loads as the zero-value default, so a
//! corrupt state file never stops the scheduler.

use vstd::prelude::*;
use vstd::string::StrSliceExecFns;
use vstd::string::StringExecFns;
use crate::text::matches_at;

verus! {

/// The credential pool as loaded from configuration: a non-empty ordered
/// sequence of bearer secrets.
#[derive(Debug)]
pub struct Config {
    pub tokens: Vec<String>,
}

/// Why a credential pool is refused at load.
#[derive(Clone, Copy, Debug, PartialEq, Eq, Structural)]
pub enum ConfigError {
    /// The token list is empty.
    EmptyTokenList,
}

/// The persisted orchestrator state.
#[derive(Debug, Clone)]
pub struct State {
    pub current_account_index: usize,
    pub mawari_node_1_name: String,
    pub mawari_node_2_name: String,
}

/// Mathematical model of a [`State`].
pub struct StateModel {
    pub index: nat,
    pub node1: Seq<char>,
    pub node2: Seq<char>,
}

impl View for State {
    type V = StateModel;

    open spec fn view(&self) -> StateModel {
        StateModel {
            index: self.current_account_index as nat,
            node1: self.mawari_node_1_name@,
            node2: self.mawari_node_2_name@,
        }
    }
}

/// The zero-value state a missing or corrupt state file loads as.
pub open spec fn default_model() -> StateModel {
    StateModel { index: 0, node1: Seq::empty(), node2: Seq::empty() }
}

impl Default for State {
    /// The zero-value state: index 0, no session names.
    fn default() -> (r: Self)
        ensures
            r@ == default_model(),
    {
        State {
            current_account_index: 0,
            mawari_node_1_name: String::new(),
            mawari_node_2_name: String::new(),
        }
    }
}

/// A token wears one of the two known bearer-secret shapes.
pub open spec fn token_shape_ok(t: Seq<char>) -> bool {
    matches_at(t, "ghp_"@, 0) || matches_at(t, "github_pat_"@, 0)
}

/// Whether a token wears a known shape; an odd one earns only a warning.
pub fn token_has_known_shape(t: &str) -> (r: bool)
    ensures
        r == token_shape_ok(t@),
{
    crate::text::starts_with(t, "ghp_") || crate::text::starts_with(t, "github_pat_")
}

/// Accept a loaded token list as the credential pool.  The one fatal
/// condition is an empty list.
pub fn validate_config(tokens: Vec<String>) -> (r: Result<Config, ConfigError>)
    ensures
        tokens@.len() == 0 ==> r == Result::<Config, ConfigError>::Err(ConfigError::EmptyTokenList),
        tokens@.len() > 0 ==> (r matches Ok(c) && c.tokens == tokens),
{
    if tokens.len() == 0 {
        Err(ConfigError::EmptyTokenList)
    } else {
        Ok(Config { tokens })
    }
}

/// A decimal digit.
pub open spec fn is_digit(c: char) -> bool {
    48 <= c as int && c as int <= 57
}

/// The value of one decimal digit.
pub open spec fn digit_val(c: char) -> nat {
    ((c as int) - 48) as nat
}

/// The digit character for a value under ten.
pub open spec fn digit_char(d: nat) -> char {
    if d == 0 {
        '0'
    } else if d == 1 {
        '1'
    } else if d == 2 {
        '2'
    } else if d == 3 {
        '3'
    } else if d == 4 {
        '4'
    } else if d == 5 {
        '5'
    } else if d == 6 {
        '6'
    } else if d == 7 {
        '7'
    } else if d == 8 {
        '8'
    } else {
        '9'
    }
}

/// The decimal digits of `n`, most significant first.
pub open spec fn dec_digits(n: nat) -> Seq<char>
    decreases n,
{
    if n < 10 {
        seq![digit_char(n)]
    } else {
        dec_digits(n / 10).push(digit_char(n % 10))
    }
}

/// The value of a digit string, read left to right.
pub open spec fn dec_val(s: Seq<char>) -> nat
    decreases s.len(),
{
    if s.len() == 0 {
        0
    } else {
        dec_val(s.drop_last()) * 10 + digit_val(s.last())
    }
}

/// Every character is a decimal digit.
pub open spec fn all_digits(s: Seq<char>) -> bool {
    forall|i: int| 0 <= i < s.len() ==> is_digit(s[i])
}

/// Law: printing a number decimally and reading it back is the identity,
/// and the printed form is a non-empty digit string.
pub proof fn lemma_dec_roundtrip(n: nat)
    ensures
        dec_val(dec_digits(n)) == n,
        all_digits(dec_digits(n)),
        dec_digits(n).len() >= 1,
    decreases n,
{
    if n < 10 {
        let s = seq![digit_char(n)];
        assert(s.len() == 1);
        assert(s.last() == digit_char(n));
        assert(s.drop_last() =~= Seq::<char>::empty());
        assert(dec_val(Seq::<char>::empty()) == 0);
        assert(dec_val(s) == digit_val(digit_char(n)));
    } else {
        lemma_dec_roundtrip(n / 10);
        let s = dec_digits(n / 10).push(digit_char(n % 10));
        assert(s.drop_last() =~= dec_digits(n / 10));
        assert(s.last() == digit_char(n % 10));
        assert(dec_val(s) == (n / 10) * 10 + digit_val(digit_char(n % 10)));
        assert(digit_val(digit_char(n % 10)) == n % 10);
        assert((n / 10) * 10 + n % 10 == n) by {
            vstd::arithmetic::div_mod::lemma_fundamental_div_mod(n as int, 10);
        }
    }
}

/// Index of the first `c` at or after `from`, or -1.
pub open spec fn find_from(s: Seq<char>, from: int, c: char) -> int
    decreases s.len() - from,
{
    if from < 0 || from >= s.len() {
        -1
    } else if s[from] == c {
        from
    } else {
        find_from(s, from + 1, c)
    }
}

proof fn lemma_find_from_at(s: Seq<char>, from: int, c: char, i: int)
    requires
        0 <= from <= i < s.len(),
        forall|k: int| from <= k < i ==> s[k] != c,
        s[i] == c,
    ensures
        find_from(s, from, c) == i,
    decreases i - from,
{
    if from < i {
        lemma_find_from_at(s, from + 1, c, i);
    }
}

/// A newline-terminated decimal number read at `from`: the value when the
/// digits are non-empty, all digits and fit a `usize`, else nothing.  The
/// second component is the position just past the terminating newline.
pub open spec fn read_number(s: Seq<char>, from: int) -> Option<(nat, int)> {
    let p = find_from(s, from, '\n');
    if p < 0 {
        None
    } else {
        let digits = s.subrange(from, p);
        if digits.len() == 0 || !all_digits(digits) || dec_val(digits) > usize::MAX {
            None
        } else {
            Some((dec_val(digits), p + 1))
        }
    }
}

/// The state file's text for given field values: the decimal index, then
/// each session name preceded by its decimal character count, the numbers
/// newline-terminated and the names taken verbatim by count.
pub open spec fn encode_spec(index: nat, node1: Seq<char>, node2: Seq<char>) -> Seq<char> {
    dec_digits(index) + seq!['\n'] + dec_digits(node1.len()) + seq!['\n'] + node1 + dec_digits(
        node2.len(),
    ) + seq!['\n'] + node2
}

/// What any text loads as: the framed fields when the index, both counts
/// and both counted names fit the text, the zero-value default otherwise.
pub open spec fn decode_spec(s: Seq<char>) -> StateModel {
    match read_number(s, 0) {
        None => default_model(),
        Some((index, after_index)) => match read_number(s, after_index) {
            None => default_model(),
            Some((len1, name1_start)) => {
                if name1_start + len1 > s.len() {
                    default_model()
                } else {
                    let node1 = s.subrange(name1_start, name1_start + len1);
                    match read_number(s, name1_start + len1) {
                        None => default_model(),
                        Some((len2, name2_start)) => {
                            if name2_start + len2 > s.len() {
                                default_model()
                            } else {
                                StateModel {
                                    index: index,
                                    node1: node1,
                                    node2: s.subrange(name2_start, name2_start + len2),
                                }
                            }
                        },
                    }
                }
            },
        },
    }
}

fn digit_str(d: usize) -> (r: &'static str)
    requires
        d < 10,
    ensures
        r@ =~= seq![digit_char(d as nat)],
{
    let r: &'static str = match d {
        0 => "0",
        1 => "1",
        2 => "2",
        3 => "3",
        4 => "4",
        5 => "5",
        6 => "6",
        7 => "7",
        8 => "8",
        _ => "9",
    };
    proof {
        reveal_strlit("0");
        reveal_strlit("1");
        reveal_strlit("2");
        reveal_strlit("3");
        reveal_strlit("4");
        reveal_strlit("5");
        reveal_strlit("6");
        reveal_strlit("7");
        reveal_strlit("8");
        reveal_strlit("9");
    }
    r
}

/// Print an index decimally.
pub fn format_index(n: usize) -> (r: String)
    ensures
        r@ == dec_digits(n as nat),
    decreases n,
{
    if n < 10 {
        String::from_str(digit_str(n))
    } else {
        let pre = format_index(n / 10);
        let r = pre.concat(digit_str(n % 10));
        proof {
            assert(r@ =~= dec_digits((n / 10) as nat).push(digit_char((n % 10) as nat)));
        }
        r
    }
}

/// Parse a decimal index: `Some` exactly for a non-empty all-digit string
/// whose value fits.
pub fn parse_index(s: &str) -> (r: Option<usize>)
    ensures
        r matches Some(v) ==> s@.len() > 0 && all_digits(s@) && v == dec_val(s@),
        r is None ==> s@.len() == 0 || !all_digits(s@) || dec_val(s@) > usize::MAX,
{
    let len = s.unicode_len();
    if len == 0 {
        return None;
    }
    let mut acc: usize = 0;
    let mut i: usize = 0;
    while i < len
        invariant
            len == s@.len(),
            0 < len,
            i <= len,
            all_digits(s@.subrange(0, i as int)),
            acc == dec_val(s@.subrange(0, i as int)),
        decreases len - i,
    {
        let c = s.get_char(i);
        let code = c as u32;
        if code < 48 || code > 57 {
            assert(!is_digit(s@[i as int]));
            return None;
        }
        let d = (code - 48) as usize;
        proof {
            let pre = s@.subrange(0, i as int);
            let post = s@.subrange(0, i as int + 1);
            assert(post.drop_last() =~= pre);
            assert(post.last() == s@[i as int]);
            assert(dec_val(post) == dec_val(pre) * 10 + digit_val(s@[i as int]));
        }
        if acc > (usize::MAX - d) / 10 {
            proof {
                vstd::arithmetic::div_mod::lemma_fundamental_div_mod((usize::MAX - d) as int, 10);
                assert(dec_val(s@.subrange(0, i as int + 1)) > usize::MAX);
                lemma_dec_val_prefix_le(s@, i as int + 1);
            }
            return None;
        }
        proof {
            vstd::arithmetic::div_mod::lemma_fundamental_div_mod((usize::MAX - d) as int, 10);
        }
        acc = acc * 10 + d;
        i += 1;
    }
    proof {
        assert(s@.subrange(0, len as int) =~= s@);
    }
    Some(acc)
}

proof fn lemma_dec_val_prefix_le(s: Seq<char>, i: int)
    requires
        0 <= i <= s.len(),
    ensures
        dec_val(s.subrange(0, i)) <= dec_val(s),
    decreases s.len() - i,
{
    if i < s.len() {
        let a = s.subrange(0, i);
        let b = s.subrange(0, i + 1);
        assert(b.drop_last() =~= a);
        assert(dec_val(b) == dec_val(a) * 10 + digit_val(s[i]));
        lemma_dec_val_prefix_le(s, i + 1);
    } else {
        assert(s.subrange(0, i) =~= s);
    }
}

/// Write a state as its file text.
pub fn encode_state(s: &State) -> (r: String)
    ensures
        r@ == encode_spec(s.current_account_index as nat, s.mawari_node_1_name@, s.mawari_node_2_name@),
{
    proof {
        reveal_strlit("\n");
    }
    let len1 = s.mawari_node_1_name.as_str().unicode_len();
    let len2 = s.mawari_node_2_name.as_str().unicode_len();
    let count1 = format_index(len1);
    let count2 = format_index(len2);
    let r = format_index(s.current_account_index).concat("\n").concat(count1.as_str()).concat(
        "\n",
    ).concat(s.mawari_node_1_name.as_str()).concat(count2.as_str()).concat("\n").concat(
        s.mawari_node_2_name.as_str(),
    );
    proof {
        assert(r@ =~= encode_spec(
            s.current_account_index as nat,
            s.mawari_node_1_name@,
            s.mawari_node_2_name@,
        ));
    }
    r
}

fn find_nl(s: &str, from: usize) -> (r: Option<usize>)
    requires
        from <= s@.len(),
    ensures
        r matches Some(i) ==> {
            &&& from <= i < s@.len()
            &&& s@[i as int] == '\n'
            &&& i as int == find_from(s@, from as int, '\n')
        },
        r is None ==> find_from(s@, from as int, '\n') == -1,
{
    let len = s.unicode_len();
    let mut i: usize = from;
    while i < len
        invariant
            len == s@.len(),
            from <= i <= len,
            find_from(s@, from as int, '\n') == find_from(s@, i as int, '\n'),
        decreases len - i,
    {
        if s.get_char(i) == '\n' {
            return Some(i);
        }
        i += 1;
    }
    None
}

fn read_number_exec(s: &str, from: usize) -> (r: Option<(usize, usize)>)
    requires
        from <= s@.len(),
    ensures
        r matches Some(v) ==> {
            &&& read_number(s@, from as int) == Some((v.0 as nat, v.1 as int))
            &&& from < v.1 <= s@.len()
        },
        r is None ==> read_number(s@, from as int) is None,
{
    // binding the length tells the verifier the text fits in a usize
    let _len = s.unicode_len();
    let p = match find_nl(s, from) {
        Some(p) => p,
        None => {
            return None;
        },
    };
    let v = match parse_index(s.substring_char(from, p)) {
        Some(v) => v,
        None => {
            return None;
        },
    };
    Some((v, p + 1))
}

/// Read state-file text back into a state: the framed fields, or the
/// zero-value default when the text is corrupt.
pub fn decode_state(s: &str) -> (r: State)
    ensures
        r@ == decode_spec(s@),
{
    let len = s.unicode_len();
    let (index, after_index) = match read_number_exec(s, 0) {
        Some(v) => v,
        None => {
            return State::default();
        },
    };
    let (len1, name1_start) = match read_number_exec(s, after_index) {
        Some(v) => v,
        None => {
            return State::default();
        },
    };
    if len1 > len - name1_start {
        return State::default();
    }
    let name1_end = name1_start + len1;
    let node1 = String::from_str(s.substring_char(name1_start, name1_end));
    let (len2, name2_start) = match read_number_exec(s, name1_end) {
        Some(v) => v,
        None => {
            return State::default();
        },
    };
    if len2 > len - name2_start {
        return State::default();
    }
    let node2 = String::from_str(s.substring_char(name2_start, name2_start + len2));
    State { current_account_index: index, mawari_node_1_name: node1, mawari_node_2_name: node2 }
}

/// Law: state persistence round-trips.  Writing any state and reloading the
/// written text reproduces the field values exactly, whatever the session
/// names hold.
pub proof fn lemma_state_roundtrip(index: nat, node1: Seq<char>, node2: Seq<char>)
    requires
        index <= usize::MAX,
        node1.len() <= usize::MAX,
        node2.len() <= usize::MAX,
    ensures
        decode_spec(encode_spec(index, node1, node2)) == (StateModel {
            index: index,
            node1: node1,
            node2: node2,
        }),
{
    lemma_dec_roundtrip(index);
    lemma_dec_roundtrip(node1.len());
    lemma_dec_roundtrip(node2.len());
    let d0 = dec_digits(index);
    let d1 = dec_digits(node1.len());
    let d2 = dec_digits(node2.len());
    let s = encode_spec(index, node1, node2);
    let a0 = d0.len() as int;
    let b1 = a0 + 1;
    let a1 = b1 + d1.len();
    let c1 = a1 + 1;
    let q = c1 + node1.len();
    let a2 = q + d2.len();
    let c2 = a2 + 1;
    assert(s.len() == c2 + node2.len());
    assert(forall|k: int| 0 <= k < a0 ==> s[k] == d0[k]);
    assert(s[a0] == '\n');
    assert(forall|k: int| 0 <= k < d1.len() ==> s[b1 + k] == d1[k]);
    assert(s[a1] == '\n');
    assert(forall|k: int| 0 <= k < node1.len() ==> s[c1 + k] == node1[k]);
    assert(forall|k: int| 0 <= k < d2.len() ==> s[q + k] == d2[k]);
    assert(s[a2] == '\n');
    assert(forall|k: int| 0 <= k < node2.len() ==> s[c2 + k] == node2[k]);
    assert(forall|k: int| 0 <= k < a0 ==> s[k] != '\n') by {
        assert(forall|k: int| 0 <= k < a0 ==> is_digit(#[trigger] d0[k]));
    }
    assert(forall|k: int| b1 <= k < a1 ==> s[k] != '\n') by {
        assert(forall|k: int| 0 <= k < d1.len() ==> is_digit(#[trigger] d1[k]));
    }
    assert(forall|k: int| q <= k < a2 ==> s[k] != '\n') by {
        assert(forall|k: int| 0 <= k < d2.len() ==> is_digit(#[trigger] d2[k]));
    }
    lemma_find_from_at(s, 0, '\n', a0);
    lemma_find_from_at(s, b1, '\n', a1);
    lemma_find_from_at(s, q, '\n', a2);
    assert(s.subrange(0, a0) =~= d0);
    assert(s.subrange(b1, a1) =~= d1);
    assert(s.subrange(c1, q) =~= node1);
    assert(s.subrange(q, a2) =~= d2);
    assert(s.subrange(c2, c2 + node2.len()) =~= node2);
}

} // verus!
