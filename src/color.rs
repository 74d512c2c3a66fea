//! The closed set of highlight colours and how a stored preference names one.
use vstd::prelude::*;
use vstd::string::*;

verus! {

/// One of the eight standard terminal foreground colours.
#[derive(Clone, Copy, Debug, PartialEq, Eq, Structural)]
pub enum Color {
    Black,
    Red,
    Green,
    Yellow,
    Blue,
    Magenta,
    Cyan,
    White,
}

/// The colour used when no preference is stored or none is recognised.
pub open spec fn default_color() -> Color {
    Color::Red
}

/// The colours in the order in which a preference is matched against them.
pub open spec fn color_table() -> Seq<Color> {
    seq![
        Color::Black,
        Color::Red,
        Color::Green,
        Color::Yellow,
        Color::Blue,
        Color::Magenta,
        Color::Cyan,
        Color::White,
    ]
}

/// The name of a colour, in lower case.
pub open spec fn color_name(c: Color) -> Seq<char> {
    match c {
        Color::Black => "black"@,
        Color::Red => "red"@,
        Color::Green => "green"@,
        Color::Yellow => "yellow"@,
        Color::Blue => "blue"@,
        Color::Magenta => "magenta"@,
        Color::Cyan => "cyan"@,
        Color::White => "white"@,
    }
}

/// The ANSI palette index of a colour.
pub open spec fn ansi_index(c: Color) -> u8 {
    match c {
        Color::Black => 0,
        Color::Red => 1,
        Color::Green => 2,
        Color::Yellow => 3,
        Color::Blue => 4,
        Color::Magenta => 5,
        Color::Cyan => 6,
        Color::White => 7,
    }
}

/// `needle` occurs in `hay` at position `i`.
pub open spec fn occurs_at(hay: Seq<char>, needle: Seq<char>, i: int) -> bool {
    &&& 0 <= i
    &&& i + needle.len() <= hay.len()
    &&& forall|j: int| 0 <= j < needle.len() ==> #[trigger] hay[i + j] == needle[j]
}

/// `needle` is a substring of `hay`.
pub open spec fn contains_text(hay: Seq<char>, needle: Seq<char>) -> bool {
    exists|i: int| occurs_at(hay, needle, i)
}

/// The lower-case form of a text, as Unicode's case mapping gives it.
pub uninterp spec fn lower_of(s: Seq<char>) -> Seq<char>;

/// The first colour of the table from index `k` on whose lower-case name
/// the lower-case text `s` contains, or the default colour if there is none.
pub open spec fn first_named_from(s: Seq<char>, k: nat) -> Color
    decreases 8 - k,
{
    if k >= 8 {
        default_color()
    } else if contains_text(s, color_name(color_table()[k as int])) {
        color_table()[k as int]
    } else {
        first_named_from(s, k + 1)
    }
}

/// The colour that a lower-case text names: the first of the table whose
/// name it contains, else the default.
pub open spec fn color_named_lower(s: Seq<char>) -> Color {
    first_named_from(s, 0)
}

/// The colour that a stored preference names: the first of the table whose
/// name it contains once lowered, else the default.
pub open spec fn color_named(s: Seq<char>) -> Color {
    color_named_lower(lower_of(s))
}

/// The colour for an optional preference: an absent one gives the default.
pub open spec fn color_of_preference(p: Option<Seq<char>>) -> Color {
    match p {
        Some(s) => color_named(s),
        None => default_color(),
    }
}

fn name_str(c: Color) -> (r: &'static str)
    ensures
        r@ == color_name(c),
{
    match c {
        Color::Black => "black",
        Color::Red => "red",
        Color::Green => "green",
        Color::Yellow => "yellow",
        Color::Blue => "blue",
        Color::Magenta => "magenta",
        Color::Cyan => "cyan",
        Color::White => "white",
    }
}

/// Relies on `str::to_lowercase`: the result depends on the characters
/// alone.
#[verifier::external_body]
fn lowercase(s: &str) -> (r: String)
    ensures
        r@ == lower_of(s@),
{
    s.to_lowercase()
}

/// Whether `needle` occurs in `hay`, character for character.
pub fn contains_str(hay: &str, needle: &str) -> (r: bool)
    ensures
        r == contains_text(hay@, needle@),
{
    let n = hay.unicode_len();
    let m = needle.unicode_len();
    if m > n {
        assert forall|i: int| !occurs_at(hay@, needle@, i) by {}
        return false;
    }
    let mut i: usize = 0;
    while i <= n - m
        invariant
            n == hay@.len(),
            m == needle@.len(),
            m <= n,
            i <= n - m + 1,
            forall|k: int| 0 <= k < i ==> !occurs_at(hay@, needle@, k),
        decreases n - m + 1 - i,
    {
        let mut j: usize = 0;
        let mut same = true;
        while j < m
            invariant
                n == hay@.len(),
                m == needle@.len(),
                i + m <= n,
                j <= m,
                same ==> forall|t: int| 0 <= t < j ==> hay@[i + t] == needle@[t],
                !same ==> !occurs_at(hay@, needle@, i as int),
            decreases m - j,
        {
            if same && hay.get_char(i + j) != needle.get_char(j) {
                same = false;
                assert(!(hay@[i + j] == needle@[j as int]));
            }
            j = j + 1;
        }
        if same {
            assert(occurs_at(hay@, needle@, i as int));
            return true;
        }
        i = i + 1;
    }
    assert forall|k: int| !occurs_at(hay@, needle@, k) by {
        if 0 <= k < i {
        }
    }
    false
}

/// The colour that an already lower-case text names: the eight lower-case
/// names are tried in table order and the first contained in `s` wins; a
/// text that holds none gives red.
pub fn color_from_lowercase(s: &str) -> (r: Color)
    ensures
        r == color_named_lower(s@),
{
    let table: [Color; 8] = [
        Color::Black,
        Color::Red,
        Color::Green,
        Color::Yellow,
        Color::Blue,
        Color::Magenta,
        Color::Cyan,
        Color::White,
    ];
    assert(table@ == color_table());
    let mut k: usize = 0;
    while k < 8
        invariant
            k <= 8,
            table@ == color_table(),
            first_named_from(s@, k as nat) == first_named_from(s@, 0),
        decreases 8 - k,
    {
        let c = table[k];
        if contains_str(s, name_str(c)) {
            return c;
        }
        k = k + 1;
    }
    Color::Red
}

/// The colour that a stored preference names: it is lowered, then the eight
/// names are tried in table order and the first contained in it wins; a
/// preference that names none gives red.
pub fn color_from_name(s: &str) -> (r: Color)
    ensures
        r == color_named(s@),
{
    let lower = lowercase(s);
    color_from_lowercase(lower.as_str())
}

/// The colour for an optional stored preference; an absent one gives red.
pub fn color_from_preference(p: Option<&str>) -> (r: Color)
    ensures
        r == color_of_preference(
            match p {
                Some(s) => Some(s@),
                None => None,
            },
        ),
{
    match p {
        Some(s) => color_from_name(s),
        None => Color::Red,
    }
}

/// The ANSI palette index of a colour.
pub fn color_index(c: Color) -> (r: u8)
    ensures
        r == ansi_index(c),
{
    match c {
        Color::Black => 0,
        Color::Red => 1,
        Color::Green => 2,
        Color::Yellow => 3,
        Color::Blue => 4,
        Color::Magenta => 5,
        Color::Cyan => 6,
        Color::White => 7,
    }
}

} // verus!
