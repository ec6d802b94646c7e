//! Wiki page titles.

use crate::error::DecodeError;
use crate::percent::decode_to_text;
use crate::percent::encode_for_query;
use crate::percent::percent_decoded;
use crate::percent::query_encoded;
use vstd::prelude::*;
use vstd::std_specs::convert::FromSpecImpl;
use vstd::string::*;
use vstd::utf8::*;

verus! {

/// The title of a wiki page, as a link names it. It may hold percent escapes.
#[derive(Clone, Debug)]
pub struct PageTitle(pub String);

impl View for PageTitle {
    type V = Seq<char>;

    open spec fn view(&self) -> Seq<char> {
        self.0@
    }
}

impl DeepView for PageTitle {
    type V = Seq<char>;

    open spec fn deep_view(&self) -> Seq<char> {
        self.0@
    }
}

impl PageTitle {
    /// Wraps `text` as it is.
    pub fn new(text: String) -> (r: Self)
        ensures
            r@ == text@,
    {
        PageTitle(text)
    }

    /// The text inside.
    pub fn as_str(&self) -> (r: &str)
        ensures
            r@ == self@,
    {
        self.0.as_str()
    }

    /// A copy of the text inside.
    pub fn to_string(&self) -> (r: String)
        ensures
            r@ == self@,
    {
        self.0.clone()
    }
}

impl From<String> for PageTitle {
    fn from(text: String) -> (r: Self) {
        PageTitle(text)
    }
}

impl FromSpecImpl<String> for PageTitle {
    open spec fn obeys_from_spec() -> bool {
        true
    }

    open spec fn from_spec(text: String) -> Self {
        PageTitle(text)
    }
}

/// Whether a character may not stand in a file name: the C0 controls and
/// `< > : \ | ? * " /`.
pub open spec fn is_reserved(c: char) -> bool {
    c as u32 <= 0x1F || c == '<' || c == '>' || c == ':' || c == '\\' || c == '|' || c == '?'
        || c == '*' || c == '"' || c == '/'
}

/// The digit of value `n` in lower-case hexadecimal.
pub open spec fn lower_hex_digit(n: int) -> char
    recommends
        0 <= n < 16,
{
    seq!['0', '1', '2', '3', '4', '5', '6', '7', '8', '9', 'a', 'b', 'c', 'd', 'e', 'f'][n]
}

/// The escape of a reserved character: `%` and its code in two lower-case
/// hexadecimal digits.
pub open spec fn escape_of(c: char) -> Seq<char>
    recommends
        is_reserved(c),
{
    seq!['%', lower_hex_digit(c as u32 as int / 16), lower_hex_digit(c as u32 as int % 16)]
}

/// One character as it stands in a file name: its escape where it is
/// reserved, else itself.
pub open spec fn file_name_char(c: char) -> Seq<char> {
    if is_reserved(c) {
        escape_of(c)
    } else {
        seq![c]
    }
}

/// `text` with every reserved character escaped.
pub open spec fn escaped(text: Seq<char>) -> Seq<char>
    decreases text.len(),
{
    if text.len() == 0 {
        Seq::empty()
    } else {
        escaped(text.drop_last()) + file_name_char(text.last())
    }
}

/// The suffix of every file name.
pub open spec fn file_suffix() -> Seq<char> {
    ".html"@
}

/// The text that `title` spells once its percent escapes are decoded and
/// the bytes read as UTF-8; `None` where the bytes are not UTF-8.
pub open spec fn decoded_title(title: Seq<char>) -> Option<Seq<char>> {
    let bytes = percent_decoded(encode_utf8(title));
    if valid_utf8(bytes) {
        Some(decode_utf8(bytes))
    } else {
        None
    }
}

/// The name of the file that holds the page `title`: the decoded title with
/// its reserved characters escaped, and the suffix. A title that does not
/// decode has none.
pub open spec fn file_name_of(title: Seq<char>) -> Option<Seq<char>> {
    match decoded_title(title) {
        Some(text) => Some(escaped(text) + file_suffix()),
        None => None,
    }
}

/// The address of the page `title` on the wiki: the title stands in the
/// query, its bytes escaped as a query asks.
pub open spec fn page_address(title: Seq<char>) -> Seq<char> {
    "https://music765plus.com/index.php?title="@ + query_encoded(encode_utf8(title))
        + "&action=view"@
}

/// Escaping goes piece by piece: the escape of two texts in a row is the
/// escapes of the two in a row.
pub proof fn lemma_escaped_concat(a: Seq<char>, b: Seq<char>)
    ensures
        escaped(a + b) == escaped(a) + escaped(b),
    decreases b.len(),
{
    if b.len() == 0 {
        assert(a + b =~= a);
        assert(escaped(a) + escaped(b) =~= escaped(a));
    } else {
        assert((a + b).drop_last() =~= a + b.drop_last());
        assert((a + b).last() == b.last());
        lemma_escaped_concat(a, b.drop_last());
        assert(escaped(a + b) =~= escaped(a) + escaped(b));
    }
}

/// A text without reserved characters is its own escape.
pub proof fn lemma_escaped_plain(text: Seq<char>)
    requires
        forall|i: int| 0 <= i < text.len() ==> !is_reserved(#[trigger] text[i]),
    ensures
        escaped(text) == text,
    decreases text.len(),
{
    if text.len() > 0 {
        let front = text.drop_last();
        assert forall|i: int| 0 <= i < front.len() implies !is_reserved(#[trigger] front[i]) by {
            assert(front[i] == text[i]);
        }
        lemma_escaped_plain(front);
        assert(!is_reserved(text.last()));
        assert(front + seq![text.last()] =~= text);
    }
}

/// No reserved character is left in an escaped text.
pub proof fn lemma_escaped_has_no_reserved(text: Seq<char>)
    ensures
        forall|j: int| 0 <= j < escaped(text).len() ==> !is_reserved(#[trigger] escaped(text)[j]),
    decreases text.len(),
{
    if text.len() > 0 {
        let front = text.drop_last();
        let c = text.last();
        lemma_escaped_has_no_reserved(front);
        assert forall|j: int| 0 <= j < escaped(text).len() implies !is_reserved(
            #[trigger] escaped(text)[j],
        ) by {
            if j < escaped(front).len() {
                assert(escaped(text)[j] == escaped(front)[j]);
            } else {
                let k = j - escaped(front).len();
                assert(escaped(text)[j] == file_name_char(c)[k]);
                if is_reserved(c) {
                    lemma_hex_digits_are_plain(c as u32 as int / 16);
                    lemma_hex_digits_are_plain(c as u32 as int % 16);
                }
            }
        }
    }
}

/// No hexadecimal digit is a reserved character.
proof fn lemma_hex_digits_are_plain(n: int)
    requires
        0 <= n < 16,
    ensures
        !is_reserved(lower_hex_digit(n)),
{
}

/// Where `text` holds a reserved character, its escaped form holds that
/// character's escape: it stands right after the escaped form of what comes
/// before the character.
pub proof fn lemma_escaped_spells_reserved(text: Seq<char>, i: int)
    requires
        0 <= i < text.len(),
        is_reserved(text[i]),
    ensures
        escaped(text.take(i)).len() + 3 <= escaped(text).len(),
        escaped(text).subrange(
            escaped(text.take(i)).len() as int,
            escaped(text.take(i)).len() as int + 3,
        ) == escape_of(text[i]),
{
    let before = text.take(i);
    let one = seq![text[i]];
    let behind = text.skip(i + 1);
    assert(text =~= before + one + behind);
    lemma_escaped_concat(before + one, behind);
    lemma_escaped_concat(before, one);
    assert(one.drop_last() =~= Seq::<char>::empty());
    assert(escaped(Seq::<char>::empty()) =~= Seq::<char>::empty());
    assert(escaped(one) =~= escape_of(text[i]));
    let at = escaped(before).len() as int;
    assert(escaped(text).subrange(at, at + 3) =~= escape_of(text[i]));
}

/// The file name of a title without reserved characters, which decoding
/// leaves as it is, is the title and the suffix.
pub proof fn lemma_file_name_of_plain_title(title: Seq<char>)
    requires
        forall|i: int| 0 <= i < title.len() ==> !is_reserved(#[trigger] title[i]),
        percent_decoded(encode_utf8(title)) == encode_utf8(title),
    ensures
        file_name_of(title) == Some(title + file_suffix()),
{
    encode_utf8_valid_utf8(title);
    encode_utf8_decode_utf8(title);
    lemma_escaped_plain(title);
}

/// No file name holds a reserved character.
pub proof fn lemma_file_name_has_no_reserved(title: Seq<char>)
    ensures
        file_name_of(title) matches Some(name) ==> forall|j: int|
            0 <= j < name.len() ==> !is_reserved(#[trigger] name[j]),
{
    if let Some(text) = decoded_title(title) {
        let name = escaped(text) + file_suffix();
        lemma_escaped_has_no_reserved(text);
        reveal_strlit(".html");
        assert forall|j: int| 0 <= j < name.len() implies !is_reserved(#[trigger] name[j]) by {
            if j < escaped(text).len() {
                assert(name[j] == escaped(text)[j]);
            } else {
                assert(name[j] == file_suffix()[j - escaped(text).len()]);
            }
        }
    }
}

/// Where the text that a title decodes to holds a reserved character, the
/// file name holds that character's escape.
pub proof fn lemma_file_name_spells_reserved(title: Seq<char>, i: int)
    requires
        decoded_title(title) matches Some(text) && 0 <= i < text.len() && is_reserved(text[i]),
    ensures
        ({
            let text = decoded_title(title).unwrap();
            let name = file_name_of(title).unwrap();
            let at = escaped(text.take(i)).len() as int;
            at + 3 <= name.len() && name.subrange(at, at + 3) == escape_of(text[i])
        }),
{
    let text = decoded_title(title).unwrap();
    let name = file_name_of(title).unwrap();
    let at = escaped(text.take(i)).len() as int;
    lemma_escaped_spells_reserved(text, i);
    assert(name.subrange(at, at + 3) =~= escaped(text).subrange(at, at + 3));
}

/// The lower-case hexadecimal digit of value `n`.
fn hex_digit(n: u32) -> (r: char)
    requires
        n < 16,
    ensures
        r == lower_hex_digit(n as int),
{
    if n == 0 {
        '0'
    } else if n == 1 {
        '1'
    } else if n == 2 {
        '2'
    } else if n == 3 {
        '3'
    } else if n == 4 {
        '4'
    } else if n == 5 {
        '5'
    } else if n == 6 {
        '6'
    } else if n == 7 {
        '7'
    } else if n == 8 {
        '8'
    } else if n == 9 {
        '9'
    } else if n == 10 {
        'a'
    } else if n == 11 {
        'b'
    } else if n == 12 {
        'c'
    } else if n == 13 {
        'd'
    } else if n == 14 {
        'e'
    } else {
        'f'
    }
}

/// Whether `c` may not stand in a file name.
pub fn is_reserved_char(c: char) -> (r: bool)
    ensures
        r == is_reserved(c),
{
    c as u32 <= 0x1F || c == '<' || c == '>' || c == ':' || c == '\\' || c == '|' || c == '?'
        || c == '*' || c == '"' || c == '/'
}

/// `text` with every reserved character replaced by its escape.
pub fn escape_reserved(text: &str) -> (r: String)
    ensures
        r@ == escaped(text@),
{
    let mut out = String::new();
    assert(text@.take(0) =~= Seq::<char>::empty());
    for c in it: text.chars()
        invariant
            it.seq() == text@,
            out@ == escaped(text@.take(it.index() as int)),
    {
        let ghost seen = it.index() as int;
        proof {
            assert(text@.take(seen + 1).drop_last() =~= text@.take(seen));
            assert(text@.take(seen + 1).last() == c);
        }
        if is_reserved_char(c) {
            let code = c as u32;
            out.push('%');
            out.push(hex_digit(code / 16));
            out.push(hex_digit(code % 16));
            assert(out@ =~= escaped(text@.take(seen)) + escape_of(c));
        } else {
            out.push(c);
            assert(out@ =~= escaped(text@.take(seen)) + seq![c]);
        }
    }
    assert(text@.take(text@.len() as int) =~= text@);
    out
}

impl PageTitle {
    /// The name of the file in which the page is kept. The same title gives
    /// the same name at every call. A title whose escapes do not spell
    /// UTF-8 text has no file name: the error carries the title.
    pub fn to_file_name(&self) -> (r: Result<String, DecodeError>)
        ensures
            match r {
                Ok(name) => file_name_of(self@) == Some(name@),
                Err(e) => file_name_of(self@).is_none() && e@ == self@,
            },
    {
        let text = match decode_to_text(self.0.as_str().as_bytes()) {
            Ok(text) => text,
            Err(_) => {
                return Err(DecodeError { title: self.0.clone() });
            },
        };
        let mut name = escape_reserved(text.as_str());
        name.append(".html");
        Ok(name)
    }

    /// The address from which the page is fetched.
    pub fn to_url(&self) -> (r: String)
        ensures
            r@ == page_address(self@),
    {
        let mut url = String::from_str("https://music765plus.com/index.php?title=");
        let query = encode_for_query(self.0.as_str().as_bytes());
        url.append(query.as_str());
        url.append("&action=view");
        url
    }
}

} // verus!
