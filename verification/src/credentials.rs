//! The credentials of the blob store's client: a secret key and the name of
//! a network, taken from the environment or, failing that, from the lines of
//! an environment file.

use crate::text::{text_of, to_chars, without_prefix};
use vstd::prelude::*;
use vstd::string::StringExecFns;

verus! {

/// Whether `c` is white space in the sense of Unicode.
pub open spec fn is_blank(c: char) -> bool {
    let code = c as u32;
    ||| 0x09 <= code <= 0x0D
    ||| code == 0x20
    ||| code == 0x85
    ||| code == 0xA0
    ||| code == 0x1680
    ||| 0x2000 <= code <= 0x200A
    ||| code == 0x2028
    ||| code == 0x2029
    ||| code == 0x202F
    ||| code == 0x205F
    ||| code == 0x3000
}

/// `text` without the white space it begins with.
pub open spec fn trimmed_left(text: Seq<char>) -> Seq<char>
    decreases text.len(),
{
    if text.len() > 0 && is_blank(text[0]) {
        trimmed_left(text.drop_first())
    } else {
        text
    }
}

/// `text` without the white space it ends with.
pub open spec fn trimmed_right(text: Seq<char>) -> Seq<char>
    decreases text.len(),
{
    if text.len() > 0 && is_blank(text.last()) {
        trimmed_right(text.drop_last())
    } else {
        text
    }
}

/// `text` without the white space at either end.
pub open spec fn trimmed(text: Seq<char>) -> Seq<char> {
    trimmed_right(trimmed_left(text))
}

/// The length of the first line of `text`: the number of characters before
/// the first line feed, or all of them.
pub open spec fn line_len(text: Seq<char>) -> int
    decreases text.len(),
{
    if text.len() == 0 || text[0] == '\n' {
        0
    } else {
        1 + line_len(text.drop_first())
    }
}

/// A secret key and a network's name.
pub struct Settings {
    pub key: Seq<char>,
    pub network: Seq<char>,
}

/// What is known before any line is read: no key, and the test network.
pub open spec fn default_settings() -> Settings {
    Settings { key: Seq::empty(), network: "testnet"@ }
}

/// The settings after one more line. A line that, white space at its ends
/// aside, begins with `SUI_SECRET_KEY=` sets the key to what follows; one
/// that begins with `SUI_NETWORK=` sets the network. Other lines change
/// nothing.
pub open spec fn settings_after_line(settings: Settings, line: Seq<char>) -> Settings {
    let entry = trimmed(line);
    if "SUI_SECRET_KEY="@.is_prefix_of(entry) {
        Settings { key: without_prefix(entry, "SUI_SECRET_KEY="@.len()), network: settings.network }
    } else if "SUI_NETWORK="@.is_prefix_of(entry) {
        Settings { key: settings.key, network: without_prefix(entry, "SUI_NETWORK="@.len()) }
    } else {
        settings
    }
}

/// The settings after every line of `text`, in order. Lines end at a line
/// feed; where a key is set more than once, the last line counts.
pub open spec fn settings_after(settings: Settings, text: Seq<char>) -> Settings
    decreases text.len(),
{
    if text.len() == 0 {
        settings
    } else {
        let end = line_len(text);
        let next = settings_after_line(settings, text.subrange(0, end));
        if 0 <= end < text.len() {
            settings_after(next, text.subrange(end + 1, text.len() as int))
        } else {
            next
        }
    }
}

/// The credentials that an environment file holds, or the complaint that it
/// holds no secret key.
pub open spec fn file_credentials(content: Seq<char>) -> Result<Settings, Seq<char>> {
    let settings = settings_after(default_settings(), content);
    if settings.key.len() == 0 {
        Err("SUI_SECRET_KEY not found in .env file or environment"@)
    } else {
        Ok(settings)
    }
}

/// The credentials that the environment holds: `None` where it sets no
/// secret key, so that the file decides; a complaint where the key is set
/// but empty; otherwise the key, and the network or else the test network.
pub open spec fn environment_credentials(
    secret_key: Option<Seq<char>>,
    network: Option<Seq<char>>,
) -> Option<Result<Settings, Seq<char>>> {
    match secret_key {
        None => None,
        Some(key) => if key.len() == 0 {
            Some(Err("SUI_SECRET_KEY is set but empty"@))
        } else {
            Some(
                Ok(
                    Settings {
                        key,
                        network: match network {
                            Some(name) => name,
                            None => "testnet"@,
                        },
                    },
                ),
            )
        },
    }
}

/// The first `n` characters of a text hold no line feed and the next one, if
/// there is one, is a line feed: then `n` is the length of its first line.
proof fn lemma_line_len(text: Seq<char>, n: int)
    requires
        0 <= n <= text.len(),
        forall|i: int| 0 <= i < n ==> text[i] != '\n',
        n == text.len() || text[n] == '\n',
    ensures
        line_len(text) == n,
    decreases n,
{
    if n > 0 {
        let rest = text.drop_first();
        assert forall|i: int| 0 <= i < n - 1 implies rest[i] != '\n' by {
            assert(rest[i] == text[i + 1]);
        }
        lemma_line_len(rest, n - 1);
    }
}

/// The first `n` characters of a text are blank and the next one, if there
/// is one, is not: then trimming on the left drops exactly those.
proof fn lemma_trimmed_left(text: Seq<char>, n: int)
    requires
        0 <= n <= text.len(),
        forall|i: int| 0 <= i < n ==> is_blank(text[i]),
        n == text.len() || !is_blank(text[n]),
    ensures
        trimmed_left(text) == text.subrange(n, text.len() as int),
    decreases n,
{
    if n > 0 {
        let rest = text.drop_first();
        assert forall|i: int| 0 <= i < n - 1 implies is_blank(rest[i]) by {
            assert(rest[i] == text[i + 1]);
        }
        lemma_trimmed_left(rest, n - 1);
        assert(rest.subrange(n - 1, rest.len() as int) =~= text.subrange(n, text.len() as int));
    } else {
        assert(text.subrange(0, text.len() as int) =~= text);
    }
}

/// The characters of a text from `n` on are blank and the one before, if
/// there is one, is not: then trimming on the right drops exactly those.
proof fn lemma_trimmed_right(text: Seq<char>, n: int)
    requires
        0 <= n <= text.len(),
        forall|i: int| n <= i < text.len() ==> is_blank(text[i]),
        n == 0 || !is_blank(text[n - 1]),
    ensures
        trimmed_right(text) == text.subrange(0, n),
    decreases text.len() - n,
{
    if n < text.len() {
        let rest = text.drop_last();
        lemma_trimmed_right(rest, n);
        assert(rest.subrange(0, n) =~= text.subrange(0, n));
    } else {
        assert(text.subrange(0, text.len() as int) =~= text);
    }
}

/// Whether `c` is white space in the sense of Unicode.
pub fn is_whitespace(c: char) -> (blank: bool)
    ensures
        blank == is_blank(c),
{
    let code: u32 = c as u32;
    (0x09 <= code && code <= 0x0D) || code == 0x20 || code == 0x85 || code == 0xA0 || code
        == 0x1680 || (0x2000 <= code && code <= 0x200A) || code == 0x2028 || code == 0x2029
        || code == 0x202F || code == 0x205F || code == 0x3000
}

/// Whether the characters of `text` between `from` and `to` begin with
/// `prefix`.
fn has_prefix_at(text: &[char], from: usize, to: usize, prefix: &[char]) -> (found: bool)
    requires
        from <= to <= text@.len(),
    ensures
        found == prefix@.is_prefix_of(text@.subrange(from as int, to as int)),
{
    if to - from < prefix.len() {
        return false;
    }
    let ghost part = text@.subrange(from as int, to as int);
    let mut i: usize = 0;
    while i < prefix.len()
        invariant
            from <= to <= text@.len(),
            prefix@.len() <= to - from,
            i <= prefix@.len(),
            part == text@.subrange(from as int, to as int),
            forall|j: int| 0 <= j < i ==> part[j] == prefix@[j],
        decreases prefix@.len() - i,
    {
        if text[from + i] != prefix[i] {
            assert(part[i as int] == text@[from + i]);
            assert(part.subrange(0, prefix@.len() as int)[i as int] != prefix@[i as int]);
            return false;
        }
        assert(part[i as int] == text@[from + i]);
        i += 1;
    }
    assert(part.subrange(0, prefix@.len() as int) =~= prefix@);
    true
}

/// Where a setting's value stands in the text: from `start` up to `end`.
struct Span {
    start: usize,
    end: usize,
}

/// The credentials that the lines of an environment file hold.
///
/// Every line is read, white space at its ends aside. The last line that
/// sets the key gives the key, the last that sets the network gives the
/// network, which is `testnet` where no line sets it. A file that sets no
/// key, or an empty one, is refused.
pub fn credentials_from_env_file(content: &str) -> (credentials: Result<(String, String), String>)
    ensures
        match credentials {
            Ok(pair) => file_credentials(content@) == Ok::<Settings, Seq<char>>(
                Settings { key: pair.0@, network: pair.1@ },
            ),
            Err(complaint) => file_credentials(content@) == Err::<Settings, Seq<char>>(
                complaint@,
            ),
        },
{
    let chars = to_chars(content);
    let key_name = to_chars("SUI_SECRET_KEY=");
    let network_name = to_chars("SUI_NETWORK=");
    let len = chars.len();
    let ghost text = content@;
    let mut key = Span { start: 0, end: 0 };
    let mut network: Option<Span> = None;
    let mut start: usize = 0;
    let mut done = len == 0;
    proof {
        assert(text.subrange(0, 0) =~= Seq::<char>::empty());
        assert(text.subrange(0, len as int) =~= text);
        assert(settings_of(text, key, network) == default_settings());
    }
    while !done
        invariant
            chars@ == text,
            text == content@,
            len == text.len(),
            key_name@ == "SUI_SECRET_KEY="@,
            network_name@ == "SUI_NETWORK="@,
            start <= len,
            done ==> start == len,
            key.start <= key.end <= len,
            network matches Some(span) ==> span.start <= span.end <= len,
            settings_after(default_settings(), text) == (if done {
                settings_of(text, key, network)
            } else {
                settings_after(
                    settings_of(text, key, network),
                    text.subrange(start as int, len as int),
                )
            }),
            !done ==> start < len || (start == len && len > 0 && text[len - 1] == '\n'),
        decreases (if done { 0int } else { 1int }), len - start,
    {
        let ghost rest = text.subrange(start as int, len as int);
        if start == len {
            done = true;
            assert(rest.len() == 0);
        } else {
            let mut end = start;
            while end < len && chars[end] != '\n'
                invariant
                    chars@ == text,
                    len == text.len(),
                    start <= end <= len,
                    forall|i: int| start <= i < end ==> text[i] != '\n',
                decreases len - end,
            {
                end += 1;
            }
            proof {
                assert forall|i: int| 0 <= i < end - start implies rest[i] != '\n' by {
                    assert(rest[i] == text[start + i]);
                }
                lemma_line_len(rest, end - start);
            }
            let ghost line = text.subrange(start as int, end as int);
            assert(line =~= rest.subrange(0, end - start));
            let mut first = start;
            while first < end && is_whitespace(chars[first])
                invariant
                    chars@ == text,
                    len == text.len(),
                    start <= first <= end <= len,
                    forall|i: int| start <= i < first ==> is_blank(text[i]),
                decreases end - first,
            {
                first += 1;
            }
            let mut last = end;
            while first < last && is_whitespace(chars[last - 1])
                invariant
                    chars@ == text,
                    len == text.len(),
                    first <= last <= end <= len,
                    forall|i: int| last <= i < end ==> is_blank(text[i]),
                decreases last - first,
            {
                last -= 1;
            }
            let ghost entry = text.subrange(first as int, last as int);
            proof {
                assert forall|i: int| 0 <= i < first - start implies is_blank(line[i]) by {
                    assert(line[i] == text[start + i]);
                }
                lemma_trimmed_left(line, first - start);
                let left = line.subrange(first - start, line.len() as int);
                assert(left =~= text.subrange(first as int, end as int));
                assert forall|i: int| last - first <= i < left.len() implies is_blank(left[i]) by {
                    assert(left[i] == text[first + i]);
                }
                if last > first {
                    assert(left[last - first - 1] == text[last - 1]);
                }
                lemma_trimmed_right(left, last - first);
                assert(left.subrange(0, last - first) =~= entry);
                assert(trimmed(line) == entry);
            }
            if has_prefix_at(chars.as_slice(), first, last, key_name.as_slice()) {
                key = Span { start: first + key_name.len(), end: last };
                assert(without_prefix(entry, key_name@.len()) =~= text.subrange(
                    key.start as int,
                    key.end as int,
                ));
            } else if has_prefix_at(chars.as_slice(), first, last, network_name.as_slice()) {
                let span = Span { start: first + network_name.len(), end: last };
                assert(without_prefix(entry, network_name@.len()) =~= text.subrange(
                    span.start as int,
                    span.end as int,
                ));
                network = Some(span);
            }
            if end < len {
                assert(rest.subrange(end - start + 1, rest.len() as int) =~= text.subrange(
                    end + 1,
                    len as int,
                ));
                start = end + 1;
            } else {
                start = len;
                done = true;
            }
        }
    }
    if key.start == key.end {
        return Err(String::from_str("SUI_SECRET_KEY not found in .env file or environment"));
    }
    let key_text = String::from_str(content.substring_char(key.start, key.end));
    let network_text = match network {
        Some(span) => String::from_str(content.substring_char(span.start, span.end)),
        None => String::from_str("testnet"),
    };
    Ok((key_text, network_text))
}

/// The settings that the spans found so far stand for.
spec fn settings_of(text: Seq<char>, key: Span, network: Option<Span>) -> Settings {
    Settings {
        key: text.subrange(key.start as int, key.end as int),
        network: match network {
            Some(span) => text.subrange(span.start as int, span.end as int),
            None => "testnet"@,
        },
    }
}

/// The credentials that the environment holds, if it sets a secret key.
///
/// `None` tells the caller to turn to the environment file.
pub fn credentials_from_environment(secret_key: Option<String>, network: Option<String>) -> (credentials:
    Option<Result<(String, String), String>>)
    ensures
        match credentials {
            None => environment_credentials(text_of(secret_key), text_of(network)) is None,
            Some(Ok(pair)) => environment_credentials(text_of(secret_key), text_of(network))
                == Some(
                Ok::<Settings, Seq<char>>(Settings { key: pair.0@, network: pair.1@ }),
            ),
            Some(Err(complaint)) => environment_credentials(
                text_of(secret_key),
                text_of(network),
            ) == Some(Err::<Settings, Seq<char>>(complaint@)),
        },
{
    match secret_key {
        None => None,
        Some(key) => {
            if key.as_str().is_empty() {
                Some(Err(String::from_str("SUI_SECRET_KEY is set but empty")))
            } else {
                let network = match network {
                    Some(name) => name,
                    None => String::from_str("testnet"),
                };
                Some(Ok((key, network)))
            }
        },
    }
}

} // verus!
