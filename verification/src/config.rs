use vstd::prelude::*;

verus! {

/// How the per-replica scores are combined into a mean and its standard error.
#[derive(Debug, Clone, Copy, PartialEq, Eq, Structural)]
pub enum ScoreMethod {
    /// Welford's online algorithm.
    Welford,
    /// Running sums of the values and of their squares.
    Squares,
}

/// The lower-case form of an ASCII capital letter; any other character is kept.
pub open spec fn ascii_lower(c: char) -> char {
    if 'A' <= c && c <= 'Z' {
        ((c as u32) + 32) as char
    } else {
        c
    }
}

/// A text with every ASCII capital letter turned into lower case.
pub open spec fn ascii_lowercase(s: Seq<char>) -> Seq<char> {
    s.map_values(|c: char| ascii_lower(c))
}

/// The score method that a name selects, ignoring the case of ASCII letters.
pub open spec fn method_named(name: Seq<char>) -> Option<ScoreMethod> {
    if ascii_lowercase(name) == "welford"@ {
        Some(ScoreMethod::Welford)
    } else if ascii_lowercase(name) == "squares"@ {
        Some(ScoreMethod::Squares)
    } else {
        None
    }
}

fn lower_char(c: char) -> (r: char)
    ensures
        r == ascii_lower(c),
{
    if 'A' <= c && c <= 'Z' {
        ((c as u8) + 32) as char
    } else {
        c
    }
}

fn lowercase_equals(name: &str, target: &str) -> (r: bool)
    ensures
        r == (ascii_lowercase(name@) == target@),
{
    let n = name.unicode_len();
    let t = target.unicode_len();
    if n != t {
        assert(ascii_lowercase(name@).len() != target@.len());
        return false;
    }
    let mut i: usize = 0;
    while i < n
        invariant
            n == name@.len(),
            n == target@.len(),
            i <= n,
            forall|j: int| 0 <= j < i ==> ascii_lower(#[trigger] name@[j]) == target@[j],
        decreases n - i,
    {
        let c = lower_char(name.get_char(i));
        if c != target.get_char(i) {
            assert(ascii_lowercase(name@)[i as int] != target@[i as int]);
            return false;
        }
        i = i + 1;
    }
    assert(ascii_lowercase(name@) =~= target@);
    true
}

impl ScoreMethod {
    /// Selects the score method by its name, `welford` or `squares`, in any
    /// mixture of upper and lower case; `None` for any other name.
    pub fn from_name(name: &str) -> (r: Option<ScoreMethod>)
        ensures
            r == method_named(name@),
    {
        if lowercase_equals(name, "welford") {
            Some(ScoreMethod::Welford)
        } else if lowercase_equals(name, "squares") {
            Some(ScoreMethod::Squares)
        } else {
            None
        }
    }
}

/// Lower-casing a name does not change the method it selects: the choice of
/// method ignores the case of ASCII letters.
pub proof fn law_method_name_ignores_case(name: Seq<char>)
    ensures
        method_named(ascii_lowercase(name)) == method_named(name),
{
    assert(ascii_lowercase(ascii_lowercase(name)) =~= ascii_lowercase(name)) by {
        assert forall|i: int| 0 <= i < name.len() implies ascii_lower(ascii_lower(#[trigger] name[i]))
            == ascii_lower(name[i]) by {
            let c = name[i];
            if 'A' <= c && c <= 'Z' {
                assert('a' <= ascii_lower(c) && ascii_lower(c) <= 'z');
            }
        }
    }
}

/// Lower-casing maps each ASCII capital letter to its own small letter, 32
/// code points on, and leaves every other character alone.
pub proof fn law_ascii_lower(c: char)
    ensures
        'A' <= c && c <= 'Z' ==> ascii_lower(c) as u32 == c as u32 + 32,
        'A' <= c && c <= 'Z' ==> 'a' <= ascii_lower(c) && ascii_lower(c) <= 'z',
        !('A' <= c && c <= 'Z') ==> ascii_lower(c) == c,
{
}

/// A small ASCII letter.
pub open spec fn is_small_letter(c: char) -> bool {
    'a' <= c && c <= 'z'
}

/// A name lower-cases to a word of small letters exactly when it has the
/// word's length and each of its characters is the word's letter or that
/// letter's capital, 32 code points before it.
pub proof fn law_lowercase_matches_word(name: Seq<char>, word: Seq<char>)
    requires
        forall|i: int| 0 <= i < word.len() ==> is_small_letter(#[trigger] word[i]),
    ensures
        ascii_lowercase(name) == word <==> (name.len() == word.len() && forall|i: int|
            0 <= i < name.len() ==> #[trigger] name[i] == word[i] || name[i] as u32 + 32
                == word[i] as u32),
{
    if ascii_lowercase(name) == word {
        assert forall|i: int| 0 <= i < name.len() implies #[trigger] name[i] == word[i] || name[i]
            as u32 + 32 == word[i] as u32 by {
            law_ascii_lower(name[i]);
            assert(ascii_lowercase(name)[i] == word[i]);
        }
    }
    if name.len() == word.len() && forall|i: int|
        0 <= i < name.len() ==> #[trigger] name[i] == word[i] || name[i] as u32 + 32
            == word[i] as u32 {
        assert forall|i: int| 0 <= i < name.len() implies ascii_lowercase(name)[i] == word[i] by {
            law_ascii_lower(name[i]);
            assert(is_small_letter(word[i]));
        }
        assert(ascii_lowercase(name) =~= word);
    }
}

/// Any mixture of upper and lower case of "welford" selects Welford's
/// algorithm, and any of "squares" selects the sums of squares; nothing else
/// selects a method.
pub proof fn law_method_names(name: Seq<char>)
    ensures
        method_named(name) == Some(ScoreMethod::Welford) <==> (name.len() == 7 && forall|i: int|
            0 <= i < 7 ==> #[trigger] name[i] == "welford"@[i] || name[i] as u32 + 32
                == "welford"@[i] as u32),
        method_named(name) == Some(ScoreMethod::Squares) <==> (name.len() == 7 && forall|i: int|
            0 <= i < 7 ==> #[trigger] name[i] == "squares"@[i] || name[i] as u32 + 32
                == "squares"@[i] as u32),
        method_named(name) is None <==> ascii_lowercase(name) != "welford"@
            && ascii_lowercase(name) != "squares"@,
{
    reveal_strlit("welford");
    reveal_strlit("squares");
    assert forall|i: int| 0 <= i < 7 implies is_small_letter(#[trigger] "welford"@[i]) by {}
    assert forall|i: int| 0 <= i < 7 implies is_small_letter(#[trigger] "squares"@[i]) by {}
    law_lowercase_matches_word(name, "welford"@);
    law_lowercase_matches_word(name, "squares"@);
    assert("welford"@ != "squares"@) by {
        assert("welford"@[0] != "squares"@[0]);
    }
}

} // verus!
