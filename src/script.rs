//! Chain values, raw scripts and the hash header of written scripts.
use vstd::prelude::*;
use crate::model::{spec_is_multi_step, ExecutionMode};
use crate::text::{decimal_text, hex_text, push_decimal, to_hex};

verus! {

/// The Move expression `vector::empty<u8>()`, as bytes: what the first script
/// of a multi-step proposal commits to, there being no next step.
pub open spec fn empty_vector_marker() -> Seq<u8> {
    seq![118u8, 101u8, 99u8, 116u8, 111u8, 114u8, 58u8, 58u8, 101u8, 109u8, 112u8,
        116u8, 121u8, 60u8, 117u8, 56u8, 62u8, 40u8, 41u8]
}

/// The chain value handed to a generator when chaining is off: no bytes.
pub open spec fn unchained_marker() -> Seq<u8> {
    Seq::empty()
}

/// The bytes of `vector::empty<u8>()`.
pub fn empty_vector_bytes() -> (r: Vec<u8>)
    ensures
        r@ == empty_vector_marker(),
{
    let r: Vec<u8> = vec![118u8, 101u8, 99u8, 116u8, 111u8, 114u8, 58u8, 58u8, 101u8, 109u8, 112u8,
        116u8, 121u8, 60u8, 117u8, 56u8, 62u8, 40u8, 41u8];
    assert(r@ =~= empty_vector_marker());
    r
}

/// The chain value that a multi-step script produced after `produced`
/// commits to: `vector::empty<u8>()` when nothing was produced yet, else the
/// digest the hashing facility gave for the last script, `digest_of_last`.
pub fn get_execution_hash(produced: &Vec<(String, String)>, digest_of_last: Vec<u8>) -> (r: Vec<u8>)
    ensures
        produced@.len() == 0 ==> r@ == empty_vector_marker(),
        produced@.len() > 0 ==> r@ == digest_of_last@,
{
    if produced.len() == 0 {
        empty_vector_bytes()
    } else {
        digest_of_last
    }
}

/// `b0u8,b1u8,...` for the bytes of `h`.
pub open spec fn byte_list_text(h: Seq<u8>) -> Seq<char>
    decreases h.len(),
{
    if h.len() == 0 {
        Seq::empty()
    } else {
        byte_list_text(h.drop_last()) + decimal_text(h.last()) + "u8,"@
    }
}

/// The Move literal `vector[b0u8,b1u8,...,]` of a byte string.
pub open spec fn hash_literal(h: Seq<u8>) -> Seq<char> {
    "vector["@ + byte_list_text(h) + "]"@
}

/// Renders bytes as a Move byte-vector literal.
pub fn vector_literal(h: &Vec<u8>) -> (r: String)
    ensures
        r@ == hash_literal(h@),
{
    let mut s = String::from_str("vector[");
    let mut i: usize = 0;
    while i < h.len()
        invariant
            i <= h@.len(),
            s@ == "vector["@ + byte_list_text(h@.subrange(0, i as int)),
        decreases h@.len() - i,
    {
        push_decimal(&mut s, h[i]);
        s.append("u8,");
        assert(h@.subrange(0, i + 1).drop_last() =~= h@.subrange(0, i as int));
        assert(s@ =~= "vector["@ + byte_list_text(h@.subrange(0, i + 1)));
        i = i + 1;
    }
    assert(h@.subrange(0, h@.len() as int) =~= h@);
    s.append("]");
    s
}

/// Where the path segment that ends at `end` begins: just past the last
/// `/` before `end`, or 0.
pub open spec fn segment_start(p: Seq<char>, end: int) -> int
    decreases end,
{
    if end <= 0 {
        0
    } else if p[end - 1] == '/' {
        end
    } else {
        segment_start(p, end - 1)
    }
}

/// The file name of the first `end` characters of a path: its last segment,
/// skipping empty and `.` segments; none if there is no segment left or the
/// last one is `..`.
pub open spec fn file_name_in(p: Seq<char>, end: int) -> Option<Seq<char>>
    decreases end
    via file_name_in_decreases
{
    if end <= 0 {
        None
    } else {
        let start = segment_start(p, end);
        let seg = p.subrange(start, end);
        if seg.len() == 0 || seg == seq!['.'] {
            if start <= 0 {
                None
            } else {
                file_name_in(p, start - 1)
            }
        } else if seg == seq!['.', '.'] {
            None
        } else {
            Some(seg)
        }
    }
}

/// The file name of a path.
pub open spec fn file_name_of(p: Seq<char>) -> Option<Seq<char>> {
    file_name_in(p, p.len() as int)
}

#[via_fn]
proof fn file_name_in_decreases(p: Seq<char>, end: int) {
    lemma_segment_start_le(p, end);
}

proof fn lemma_segment_start_le(p: Seq<char>, end: int)
    ensures
        end >= 0 ==> segment_start(p, end) <= end,
    decreases end,
{
    if end > 0 && p[end - 1] != '/' {
        lemma_segment_start_le(p, end - 1);
    }
}

proof fn lemma_segment_start_bounds(p: Seq<char>, end: int)
    requires
        0 <= end <= p.len(),
    ensures
        0 <= segment_start(p, end) <= end,
        forall|j: int| segment_start(p, end) <= j < end ==> p[j] != '/',
        segment_start(p, end) > 0 ==> p[segment_start(p, end) - 1] == '/',
    decreases end,
{
    if end > 0 && p[end - 1] != '/' {
        lemma_segment_start_bounds(p, end - 1);
    }
}

/// The file name of a script path, or `None` when the path has none.
pub fn file_name(path: &str) -> (r: Option<String>)
    ensures
        r matches Some(n) ==> file_name_of(path@) == Some(n@),
        r is None ==> file_name_of(path@) is None,
{
    let len = path.unicode_len();
    let mut end: usize = len;
    loop
        invariant
            end <= len,
            len == path@.len(),
            file_name_in(path@, end as int) == file_name_of(path@),
        decreases end,
    {
        if end == 0 {
            return None;
        }
        let mut start: usize = end;
        while start > 0 && path.get_char(start - 1) != '/'
            invariant
                start <= end,
                end <= len,
                len == path@.len(),
                segment_start(path@, end as int) == segment_start(path@, start as int),
            decreases start,
        {
            start = start - 1;
        }
        proof {
            lemma_segment_start_bounds(path@, end as int);
        }
        assert(segment_start(path@, start as int) == start);
        let seg = path.substring_char(start, end);
        let n = end - start;
        let is_dot = n == 1 && seg.get_char(0) == '.';
        let is_dot_dot = n == 2 && seg.get_char(0) == '.' && seg.get_char(1) == '.';
        assert(is_dot == (seg@ == seq!['.'])) by {
            if n == 1 && seg@[0] == '.' {
                assert(seg@ =~= seq!['.']);
            }
        }
        assert(is_dot_dot == (seg@ == seq!['.', '.'])) by {
            if n == 2 && seg@[0] == '.' && seg@[1] == '.' {
                assert(seg@ =~= seq!['.', '.']);
            }
        }
        if n == 0 || is_dot {
            if start == 0 {
                return None;
            }
            end = start - 1;
        } else if is_dot_dot {
            return None;
        } else {
            return Some(String::from_str(seg));
        }
    }
}

/// What handlebars makes of `template` with the single variable `key` bound
/// to `value`; `None` when the template does not compile or render.
pub uninterp spec fn rendered_template(template: Seq<char>, key: Seq<char>, value: Seq<char>) -> Option<Seq<char>>;

#[verifier::external_type_specification]
#[verifier::external_body]
pub struct ExRenderError(handlebars::RenderError);

/// Relies on handlebars::Registry::render_template (handlebars 4): compiles
/// the template and renders it against a map holding `key` => `value`, with
/// a fresh registry; an error when the template does not parse or render.
#[verifier::external_body]
fn render_template(template: &str, key: &str, value: &str) -> (r: Result<String, handlebars::RenderError>)
    ensures
        r matches Ok(s) ==> rendered_template(template@, key@, value@) == Some(s@),
        r is Err ==> rendered_template(template@, key@, value@) is None,
{
    let mut data = std::collections::HashMap::new();
    data.insert(key, value);
    handlebars::Handlebars::new().render_template(template, &data)
}

/// The placeholder that a multi-step raw script writes for the hash of its
/// next step: `{{ script_hash }}`.
pub open spec fn hash_placeholder() -> Seq<char> {
    "script_hash"@
}

/// The text of a raw script as it goes into a proposal: in a multi-step
/// proposal the template rendered with the placeholder bound to the literal
/// of `chain`; otherwise the file as it is.
pub open spec fn spec_raw_script_text(content: Seq<char>, mode: ExecutionMode, chain: Seq<u8>) -> Option<Seq<char>> {
    if spec_is_multi_step(mode) {
        rendered_template(content, hash_placeholder(), hash_literal(chain))
    } else {
        Some(content)
    }
}

/// Substitutes the chain hash into a raw script of a multi-step proposal;
/// `None` when the template is malformed.
pub fn raw_script_text(content: &String, mode: ExecutionMode, chain: &Vec<u8>) -> (r: Option<String>)
    ensures
        r matches Some(s) ==> spec_raw_script_text(content@, mode, chain@) == Some(s@),
        r is None ==> spec_raw_script_text(content@, mode, chain@) is None,
        !spec_is_multi_step(mode) ==> (r matches Some(s) && s@ == content@),
{
    match mode {
        ExecutionMode::MultiStep => {
            let literal = vector_literal(chain);
            match render_template(content.as_str(), "script_hash", literal.as_str()) {
                Ok(s) => Some(s),
                Err(_) => None,
            }
        },
        _ => Some(content.clone()),
    }
}

/// A script preceded by a comment that gives its content hash.
pub open spec fn spec_with_hash_header(script: Seq<char>, digest: Seq<u8>) -> Seq<char> {
    "// Script hash: "@ + hex_text(digest) + " \n"@ + script
}

/// Prepends the `// Script hash: <hex>` header line to a script.
pub fn append_script_hash(script: &String, digest: &Vec<u8>) -> (r: String)
    ensures
        r@ == spec_with_hash_header(script@, digest@),
{
    let mut s = String::from_str("// Script hash: ");
    let hex = to_hex(digest);
    s.append(hex.as_str());
    s.append(" \n");
    s.append(script.as_str());
    s
}

} // verus!
