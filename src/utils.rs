use vstd::prelude::*;
use vstd::string::StrSliceExecFns;
use vstd::string::StringExecFns;

verus! {

/// Which todos a `list` command shows.
#[derive(PartialEq, Eq, Structural, Clone, Copy, Debug)]
pub enum FlagArgs {
    CompletedOnly,
    UncompletedOnly,
    All,
}

/// The command named by the first token, with its free-text or id argument
/// where the command takes one.
#[derive(Clone, Copy, Debug)]
pub enum NonFlagArgs<'a> {
    Help,
    List,
    Add(Option<&'a str>),
    Remove(Option<&'a str>),
    Edit(Option<&'a str>),
    Done(Option<&'a str>),
    Undone(Option<&'a str>),
    Clear,
}

/// The abstract value of a command: the argument seen as a character sequence.
pub enum CommandModel {
    Help,
    List,
    Add(Option<Seq<char>>),
    Remove(Option<Seq<char>>),
    Edit(Option<Seq<char>>),
    Done(Option<Seq<char>>),
    Undone(Option<Seq<char>>),
    Clear,
}

pub open spec fn opt_view(o: Option<&str>) -> Option<Seq<char>> {
    match o {
        Some(s) => Some(s@),
        None => None,
    }
}

impl<'a> View for NonFlagArgs<'a> {
    type V = CommandModel;

    open spec fn view(&self) -> CommandModel {
        match *self {
            NonFlagArgs::Help => CommandModel::Help,
            NonFlagArgs::List => CommandModel::List,
            NonFlagArgs::Add(a) => CommandModel::Add(opt_view(a)),
            NonFlagArgs::Remove(a) => CommandModel::Remove(opt_view(a)),
            NonFlagArgs::Edit(a) => CommandModel::Edit(opt_view(a)),
            NonFlagArgs::Done(a) => CommandModel::Done(opt_view(a)),
            NonFlagArgs::Undone(a) => CommandModel::Undone(opt_view(a)),
            NonFlagArgs::Clear => CommandModel::Clear,
        }
    }
}

/// One stored todo, as read back from the table.
pub struct Todo {
    pub id: isize,
    pub name: String,
    pub status: String,
}

/// Whether two strings hold the same characters.
pub fn text_eq(a: &str, b: &str) -> (r: bool)
    ensures
        r == (a@ == b@),
{
    let n = a.unicode_len();
    let m = b.unicode_len();
    if n != m {
        return false;
    }
    let mut i: usize = 0;
    while i < n
        invariant
            n == a@.len(),
            m == b@.len(),
            n == m,
            i <= n,
            a@.subrange(0, i as int) == b@.subrange(0, i as int),
        decreases n - i,
    {
        if a.get_char(i) != b.get_char(i) {
            return false;
        }
        assert(a@.subrange(0, i + 1) == a@.subrange(0, i as int).push(a@[i as int]));
        assert(b@.subrange(0, i + 1) == b@.subrange(0, i as int).push(b@[i as int]));
        i = i + 1;
    }
    assert(a@ == a@.subrange(0, n as int));
    assert(b@ == b@.subrange(0, n as int));
    true
}

/// A token that stands for a filter flag: it begins with a dash.
pub open spec fn is_flag_like(t: Seq<char>) -> bool {
    t.len() > 0 && t[0] == '-'
}

/// Whether a token begins with `-`.
pub fn starts_with_dash(t: &str) -> (r: bool)
    ensures
        r == is_flag_like(t@),
{
    if t.unicode_len() == 0 {
        false
    } else {
        t.get_char(0) == '-'
    }
}

/// The character of a decimal digit.
pub open spec fn digit_char(d: nat) -> char {
    if d == 0 { '0' }
    else if d == 1 { '1' }
    else if d == 2 { '2' }
    else if d == 3 { '3' }
    else if d == 4 { '4' }
    else if d == 5 { '5' }
    else if d == 6 { '6' }
    else if d == 7 { '7' }
    else if d == 8 { '8' }
    else { '9' }
}

/// The decimal digits of a natural number, most significant first.
pub open spec fn digits(n: nat) -> Seq<char>
    decreases n,
{
    if n < 10 {
        seq![digit_char(n)]
    } else {
        digits(n / 10) + seq![digit_char(n % 10)]
    }
}

/// The decimal writing of an integer, with a leading `-` when negative.
pub open spec fn decimal(n: int) -> Seq<char> {
    if n < 0 {
        seq!['-'] + digits((-n) as nat)
    } else {
        digits(n as nat)
    }
}

/// `n` space characters.
pub open spec fn spaces(n: nat) -> Seq<char>
    decreases n,
{
    if n == 0 {
        Seq::empty()
    } else {
        spaces((n - 1) as nat) + seq![' ']
    }
}

/// `s` left-aligned in a field of `w` characters: spaces fill what it lacks.
pub open spec fn pad_right(s: Seq<char>, w: nat) -> Seq<char> {
    if s.len() < w {
        s + spaces((w - s.len()) as nat)
    } else {
        s
    }
}

/// The separator between the columns of a listing.
pub open spec fn gap() -> Seq<char> {
    seq![' ', ' ']
}

/// A listing line: id, name and status in fields of 5, 20 and 9 characters.
pub open spec fn row_text(id: Seq<char>, name: Seq<char>, status: Seq<char>) -> Seq<char> {
    pad_right(id, 5) + gap() + pad_right(name, 20) + gap() + pad_right(status, 9)
}

fn digit_str(d: u64) -> (r: &'static str)
    requires
        d < 10,
    ensures
        r@ == seq![digit_char(d as nat)],
{
    proof {
        reveal_strlit("0");
        reveal_strlit("1");
        reveal_strlit("2");
        reveal_strlit("3");
        reveal_strlit("4");
        reveal_strlit("5");
        reveal_strlit("6");
        reveal_strlit("7");
        reveal_strlit("8");
        reveal_strlit("9");
    }
    if d == 0 {
        "0"
    } else if d == 1 {
        "1"
    } else if d == 2 {
        "2"
    } else if d == 3 {
        "3"
    } else if d == 4 {
        "4"
    } else if d == 5 {
        "5"
    } else if d == 6 {
        "6"
    } else if d == 7 {
        "7"
    } else if d == 8 {
        "8"
    } else {
        "9"
    }
}

/// Appends the decimal digits of `n`.
pub fn push_digits(out: &mut String, n: u64)
    ensures
        final(out)@ == old(out)@ + digits(n as nat),
    decreases n,
{
    if n < 10 {
        out.append(digit_str(n));
    } else {
        push_digits(out, n / 10);
        out.append(digit_str(n % 10));
        assert(final(out)@ == old(out)@ + digits(n as nat));
    }
}

/// Appends the decimal writing of `n`.
pub fn push_decimal(out: &mut String, n: isize)
    ensures
        final(out)@ == old(out)@ + decimal(n as int),
{
    if n < 0 {
        proof {
            reveal_strlit("-");
        }
        out.append("-");
        let m: i128 = -(n as i128);
        push_digits(out, m as u64);
    } else {
        push_digits(out, n as u64);
    }
}

/// Appends `s` left-aligned in a field of `w` characters.
pub fn push_padded(out: &mut String, s: &str, w: usize)
    ensures
        final(out)@ == old(out)@ + pad_right(s@, w as nat),
{
    out.append(s);
    let n = s.unicode_len();
    if n < w {
        let k: usize = w - n;
        let mut i: usize = 0;
        while i < k
            invariant
                i <= k,
                k == w - s@.len(),
                out@ == old(out)@ + s@ + spaces(i as nat),
            decreases k - i,
        {
            proof {
                reveal_strlit(" ");
            }
            out.append(" ");
            assert(spaces((i + 1) as nat) == spaces(i as nat) + seq![' ']);
            assert(out@ =~= old(out)@ + s@ + spaces((i + 1) as nat));
            i = i + 1;
        }
        assert(old(out)@ + s@ + spaces(k as nat) == old(out)@ + (s@ + spaces(k as nat)));
    } else {
        assert(old(out)@ + s@ == old(out)@ + pad_right(s@, w as nat));
    }
}

/// Appends the two spaces between the columns of a listing.
pub fn push_gap(out: &mut String)
    ensures
        final(out)@ == old(out)@ + gap(),
{
    proof {
        reveal_strlit("  ");
    }
    out.append("  ");
}

impl Todo {
    /// The todo as one listing line.
    pub fn to_line(&self) -> (r: String)
        ensures
            r@ == row_text(decimal(self.id as int), self.name@, self.status@),
    {
        let mut id_text = String::new();
        push_decimal(&mut id_text, self.id);
        let mut out = String::new();
        push_padded(&mut out, id_text.as_str(), 5);
        push_gap(&mut out);
        push_padded(&mut out, self.name.as_str(), 20);
        push_gap(&mut out);
        push_padded(&mut out, self.status.as_str(), 9);
        assert(out@ =~= row_text(decimal(self.id as int), self.name@, self.status@));
        out
    }
}

} // verus!
