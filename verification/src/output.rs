//! The result of one invocation and its three renderings: the raw text
//! field, a JSON document, and a YAML document. The JSON and YAML readers
//! here are exact inverses of the writers, which is proved below.

use vstd::prelude::*;
use crate::text::{append_escaped, escape_seq, lemma_unescape_escape, unescape_char, unescape_seq};
use crate::Output;

verus! {

/// The provider's answer, reduced to the text the user asked for.
#[derive(Debug, Clone)]
pub struct CommandResult {
    pub text: String,
}

impl View for CommandResult {
    type V = Seq<char>;

    open spec fn view(&self) -> Seq<char> {
        self.text@
    }
}

/// The opening of the JSON rendering, up to the value of its single member.
pub open spec fn json_prefix() -> Seq<char> {
    "{\"text\":\""@
}

/// The JSON rendering of a result: one object with a single `text` member.
pub open spec fn json_of(text: Seq<char>) -> Seq<char> {
    json_prefix() + escape_seq(text) + seq!['"', '}']
}

/// The opening of the YAML rendering, up to the value of its single key.
pub open spec fn yaml_prefix() -> Seq<char> {
    "text: \""@
}

/// The YAML rendering of a result: one mapping with a single `text` key,
/// its value in double-quoted style, ended by a newline.
pub open spec fn yaml_of(text: Seq<char>) -> Seq<char> {
    yaml_prefix() + escape_seq(text) + seq!['"', '\n']
}

/// What each output format renders a result as: raw output is the text field
/// verbatim, the other two are the structured documents.
pub open spec fn render_spec(text: Seq<char>, o: Output) -> Seq<char> {
    match o {
        Output::Raw => text,
        Output::Json => json_of(text),
        Output::Yaml => yaml_of(text),
    }
}

/// Reads a document of the shape `prefix`, then an escaped string body, then
/// the two closing characters. `None` unless the document has exactly that
/// shape with a well-formed body.
pub open spec fn parse_doc_spec(s: Seq<char>, prefix: Seq<char>, c1: char, c2: char) -> Option<
    Seq<char>,
> {
    if s.len() >= prefix.len() + 2 && s.subrange(0, prefix.len() as int) == prefix && s[s.len()
        - 2] == c1 && s[s.len() - 1] == c2 {
        unescape_seq(s.subrange(prefix.len() as int, s.len() - 2))
    } else {
        None
    }
}

/// What `parse_json` accepts and yields.
pub open spec fn parse_json_spec(s: Seq<char>) -> Option<Seq<char>> {
    parse_doc_spec(s, json_prefix(), '"', '}')
}

/// What `parse_yaml` accepts and yields.
pub open spec fn parse_yaml_spec(s: Seq<char>) -> Option<Seq<char>> {
    parse_doc_spec(s, yaml_prefix(), '"', '\n')
}

/// Reading back a written document yields the body it was written from.
proof fn lemma_doc_round_trip(text: Seq<char>, prefix: Seq<char>, c1: char, c2: char)
    ensures
        parse_doc_spec(prefix + escape_seq(text) + seq![c1, c2], prefix, c1, c2) == Some(text),
{
    let esc = escape_seq(text);
    let s = prefix + esc + seq![c1, c2];
    assert(s.len() == prefix.len() + esc.len() + 2);
    assert(s.subrange(0, prefix.len() as int) =~= prefix);
    assert(s[s.len() - 2] == c1);
    assert(s[s.len() - 1] == c2);
    assert(s.subrange(prefix.len() as int, s.len() - 2) =~= esc);
    lemma_unescape_escape(text);
}

/// Round trip through JSON: parsing a rendered result yields exactly the
/// original text field.
pub proof fn lemma_json_round_trip(text: Seq<char>)
    ensures
        parse_json_spec(json_of(text)) == Some(text),
{
    lemma_doc_round_trip(text, json_prefix(), '"', '}');
}

/// Round trip through YAML: parsing a rendered result yields exactly the
/// original text field.
pub proof fn lemma_yaml_round_trip(text: Seq<char>)
    ensures
        parse_yaml_spec(yaml_of(text)) == Some(text),
{
    lemma_doc_round_trip(text, yaml_prefix(), '"', '\n');
}

impl CommandResult {
    /// The raw rendering: the text field, verbatim.
    pub fn format_raw(&self) -> (r: String)
        ensures
            r@ == self@,
    {
        self.text.clone()
    }

    /// The JSON rendering.
    pub fn format_json(&self) -> (r: String)
        ensures
            r@ == json_of(self@),
    {
        let mut out = "{\"text\":\"".to_owned();
        append_escaped(&mut out, self.text.as_str());
        out.append("\"}");
        proof {
            reveal_strlit("\"}");
            assert("\"}"@ =~= seq!['"', '}']);
            assert(out@ =~= json_of(self@));
        }
        out
    }

    /// The YAML rendering.
    pub fn format_yaml(&self) -> (r: String)
        ensures
            r@ == yaml_of(self@),
    {
        let mut out = "text: \"".to_owned();
        append_escaped(&mut out, self.text.as_str());
        out.append("\"\n");
        proof {
            reveal_strlit("\"\n");
            assert("\"\n"@ =~= seq!['"', '\n']);
            assert(out@ =~= yaml_of(self@));
        }
        out
    }

    /// Renders this result in the chosen output format. Rendering never
    /// fails: every result has all three renderings.
    pub fn render(&self, output: &Output) -> (r: String)
        ensures
            r@ == render_spec(self@, *output),
    {
        match output {
            Output::Raw => self.format_raw(),
            Output::Json => self.format_json(),
            Output::Yaml => self.format_yaml(),
        }
    }
}

/// Reads a document of the fixed shape back: `prefix`, an escaped body, the
/// two closing characters.
fn parse_wrapped(s: &str, prefix: &str, c1: char, c2: char) -> (r: Option<String>)
    ensures
        match r {
            Option::Some(t) => parse_doc_spec(s@, prefix@, c1, c2) == Some(t@),
            Option::None => parse_doc_spec(s@, prefix@, c1, c2) is None,
        },
{
    let n = s.unicode_len();
    let plen = prefix.unicode_len();
    if n < plen || n - plen < 2 {
        return None;
    }
    let mut i: usize = 0;
    while i < plen
        invariant
            i <= plen,
            plen == prefix@.len(),
            n == s@.len(),
            plen + 2 <= n,
            forall|j: int| 0 <= j < i ==> s@[j] == prefix@[j],
        decreases plen - i,
    {
        if s.get_char(i) != prefix.get_char(i) {
            proof {
                assert(s@.subrange(0, plen as int)[i as int] == s@[i as int]);
            }
            return None;
        }
        i = i + 1;
    }
    proof {
        assert(s@.subrange(0, plen as int) =~= prefix@);
    }
    if s.get_char(n - 2) != c1 || s.get_char(n - 1) != c2 {
        return None;
    }
    let end = n - 2;
    let ghost content = s@.subrange(plen as int, end as int);
    let mut acc = String::new();
    let mut i: usize = plen;
    proof {
        assert(s@.subrange(plen as int, end as int) =~= content);
    }
    while i < end
        invariant
            plen <= i <= end,
            end == n - 2,
            plen + 2 <= n,
            n == s@.len(),
            plen == prefix@.len(),
            s@.subrange(0, plen as int) == prefix@,
            s@[n - 2] == c1,
            s@[n - 1] == c2,
            content == s@.subrange(plen as int, end as int),
            unescape_seq(content) == match unescape_seq(s@.subrange(i as int, end as int)) {
                Option::None => Option::<Seq<char>>::None,
                Option::Some(rest) => Option::<Seq<char>>::Some(acc@ + rest),
            },
        decreases end - i,
    {
        let ghost rem = s@.subrange(i as int, end as int);
        proof {
            assert(rem.len() == end - i);
            assert(rem[0] == s@[i as int]);
        }
        let c = s.get_char(i);
        if c == '\\' {
            if i + 1 >= end {
                proof {
                    assert(rem.len() < 2);
                }
                return None;
            }
            proof {
                assert(rem[1] == s@[i + 1]);
            }
            let e = s.get_char(i + 1);
            let decoded: char = if e == '"' {
                '"'
            } else if e == '\\' {
                '\\'
            } else if e == 'n' {
                '\n'
            } else if e == 'r' {
                '\r'
            } else if e == 't' {
                '\t'
            } else {
                proof {
                    assert(unescape_char(e) is None);
                }
                return None;
            };
            proof {
                assert(unescape_char(e) == Some(decoded));
            }
            let ghost pre = acc@;
            acc.push(decoded);
            proof {
                assert(rem.skip(2) =~= s@.subrange(i + 2, end as int));
                match unescape_seq(s@.subrange(i + 2, end as int)) {
                    Option::None => {},
                    Option::Some(rest) => {
                        assert(pre + (seq![decoded] + rest) =~= acc@ + rest);
                    },
                }
            }
            i = i + 2;
        } else if c == '"' {
            return None;
        } else {
            let ghost pre = acc@;
            acc.push(c);
            proof {
                assert(rem.skip(1) =~= s@.subrange(i + 1, end as int));
                match unescape_seq(s@.subrange(i + 1, end as int)) {
                    Option::None => {},
                    Option::Some(rest) => {
                        assert(pre + (seq![c] + rest) =~= acc@ + rest);
                    },
                }
            }
            i = i + 1;
        }
    }
    proof {
        assert(s@.subrange(end as int, end as int) =~= Seq::<char>::empty());
        assert(unescape_seq(content) == Some(acc@ + Seq::<char>::empty()));
        assert(acc@ + Seq::<char>::empty() =~= acc@);
    }
    Some(acc)
}

/// Reads a result back from its JSON rendering. `None` on any document that
/// `format_json` cannot have produced.
pub fn parse_json(s: &str) -> (r: Option<CommandResult>)
    ensures
        match r {
            Option::Some(res) => parse_json_spec(s@) == Some(res@),
            Option::None => parse_json_spec(s@) is None,
        },
{
    match parse_wrapped(s, "{\"text\":\"", '"', '}') {
        Option::Some(text) => Some(CommandResult { text }),
        Option::None => None,
    }
}

/// Reads a result back from its YAML rendering. `None` on any document that
/// `format_yaml` cannot have produced.
pub fn parse_yaml(s: &str) -> (r: Option<CommandResult>)
    ensures
        match r {
            Option::Some(res) => parse_yaml_spec(s@) == Some(res@),
            Option::None => parse_yaml_spec(s@) is None,
        },
{
    match parse_wrapped(s, "text: \"", '"', '\n') {
        Option::Some(text) => Some(CommandResult { text }),
        Option::None => None,
    }
}

/// Turns a provider response body into the text the invocation prints: the
/// body is read as a result document, and the result is rendered in the
/// chosen output format. `None` exactly on a malformed response body.
pub fn render_response(body: &str, output: &Output) -> (r: Option<String>)
    ensures
        match r {
            Option::Some(out) => parse_json_spec(body@) matches Some(t) && out@ == render_spec(
                t,
                *output,
            ),
            Option::None => parse_json_spec(body@) is None,
        },
{
    match parse_json(body) {
        Option::Some(result) => Some(result.render(output)),
        Option::None => None,
    }
}

} // verus!
