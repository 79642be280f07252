//! Reference resolver: classifies a raw image expression as a literal image
//! name or as a reference to a declared image resource, extracting the
//! referenced resource's name from an interpolation of the shape
//! `${resource.property}`.

use vstd::prelude::*;
use vstd::string::StrSliceExecFns;
use crate::text::{
    contains_token, contains_token_exec, find_from, find_token, lemma_find_from_props, str_chars,
    token_at,
};

verus! {

/// The opening token of an interpolation expression.
pub open spec fn interp_open() -> Seq<char> {
    seq!['$', '{']
}

/// The legacy marker substring that forces a literal to be treated as a
/// reference.
pub open spec fn image_name_marker() -> Seq<char> {
    seq!['i', 'm', 'a', 'g', 'e', 'N', 'a', 'm', 'e']
}

/// Result of classifying an image expression.
#[derive(Debug, PartialEq)]
pub struct Resource {
    pub name: String,
    pub is_reference: bool,
}

/// Mathematical model of a classification result.
#[verifier::ext_equal]
pub ghost struct ResourceModel {
    pub name: Seq<char>,
    pub is_reference: bool,
}

impl Resource {
    /// The model of this classification result.
    pub open spec fn model(self) -> ResourceModel {
        ResourceModel { name: self.name@, is_reference: self.is_reference }
    }
}

/// The indices of the first interpolation of the shape `${name.property}` in
/// `s`: the start of `${`, the separating dot and the closing brace, with
/// `name` and `property` both non-empty.
pub open spec fn interp_parts(s: Seq<char>) -> Option<(int, int, int)> {
    match find_from(s, interp_open(), 0) {
        None => None,
        Some(i) => match find_from(s, seq!['.'], i + 3) {
            None => None,
            Some(j) => match find_from(s, seq!['}'], j + 2) {
                None => None,
                Some(k) => Some((i, j, k)),
            },
        },
    }
}

/// Classification of an image expression: an interpolation yields a reference
/// carrying the resource name between `${` and the dot; anything else is a
/// literal, treated as a reference only when it contains the legacy marker.
pub open spec fn classify_spec(s: Seq<char>) -> ResourceModel {
    match interp_parts(s) {
        Some(p) => ResourceModel { name: s.subrange(p.0 + 2, p.1), is_reference: true },
        None => ResourceModel { name: s, is_reference: contains_token(s, image_name_marker()) },
    }
}

/// An interpolation of the shape `${name.property}` occurs in `s`: an opener
/// `${`, a dot at least one character later, and a closing brace at least one
/// character after the dot.
pub open spec fn contains_interpolation(s: Seq<char>) -> bool {
    exists|i: int, j: int, k: int|
        token_at(s, interp_open(), i) && i + 3 <= j && s[j] == '.' && j < s.len() && j + 2 <= k
            && k < s.len() && s[k] == '}'
}

/// The opening token, as a vector.
fn interp_open_vec() -> (v: Vec<char>)
    ensures
        v@ == interp_open(),
{
    let mut v: Vec<char> = Vec::new();
    v.push('$');
    v.push('{');
    proof {
        assert(v@ =~= interp_open());
    }
    v
}

/// The legacy marker, as a vector.
fn image_name_marker_vec() -> (v: Vec<char>)
    ensures
        v@ == image_name_marker(),
{
    let mut v: Vec<char> = Vec::new();
    v.push('i');
    v.push('m');
    v.push('a');
    v.push('g');
    v.push('e');
    v.push('N');
    v.push('a');
    v.push('m');
    v.push('e');
    proof {
        assert(v@ =~= image_name_marker());
    }
    v
}

/// A vector holding the one character `c`.
fn char_vec(c: char) -> (v: Vec<char>)
    ensures
        v@ == seq![c],
{
    let mut v: Vec<char> = Vec::new();
    v.push(c);
    proof {
        assert(v@ =~= seq![c]);
    }
    v
}

/// Classifies the image expression `s`. An expression containing an
/// interpolation of the shape `${name.property}` becomes a reference to
/// `name`; any other expression stays a literal and is marked as a reference
/// only when it contains the legacy `imageName` marker. Classification never
/// fails.
pub fn extract_and_parse_resource_name(s: String) -> (r: Result<Resource, ()>)
    ensures
        r matches Ok(res) && res.model() == classify_spec(s@),
{
    let v = str_chars(s.as_str());
    let open = interp_open_vec();
    match find_token(&v, &open, 0) {
        Some(i) => {
            proof {
                lemma_find_from_props(v@, open@, 0);
            }
            let n = v.len();
            let dotv = char_vec('.');
            let dot = if i + 2 < n {
                find_token(&v, &dotv, i + 3)
            } else {
                proof {
                    assert(find_from(v@, seq!['.'], i + 3) is None);
                }
                None
            };
            match dot {
                Some(j) => {
                    proof {
                        lemma_find_from_props(v@, seq!['.'], i + 3);
                    }
                    let closev = char_vec('}');
                    let close = if j + 1 < n {
                        find_token(&v, &closev, j + 2)
                    } else {
                        proof {
                            assert(find_from(v@, seq!['}'], j + 2) is None);
                        }
                        None
                    };
                    match close {
                        Some(_) => {
                            let name = s.as_str().substring_char(i + 2, j).to_owned();
                            Ok(Resource { name, is_reference: true })
                        },
                        None => literal_resource(s, &v),
                    }
                },
                None => literal_resource(s, &v),
            }
        },
        None => literal_resource(s, &v),
    }
}

/// The literal outcome of classification: the expression itself, marked as a
/// reference only when it contains the legacy marker.
fn literal_resource(s: String, v: &Vec<char>) -> (r: Result<Resource, ()>)
    requires
        v@ == s@,
        interp_parts(s@) is None,
    ensures
        r matches Ok(res) && res.model() == classify_spec(s@),
{
    let marker = image_name_marker_vec();
    let is_reference = contains_token_exec(v, &marker);
    Ok(Resource { name: s, is_reference })
}

/// A string without an interpolation of the shape `${name.property}` and
/// without the legacy `imageName` marker is classified as a literal image
/// name, unchanged.
pub proof fn lemma_classify_literal(s: Seq<char>)
    requires
        !contains_interpolation(s),
        !contains_token(s, image_name_marker()),
    ensures
        classify_spec(s) == (ResourceModel { name: s, is_reference: false }),
{
    if interp_parts(s) is Some {
        lemma_interp_parts_sound(s);
    }
}

/// When `interp_parts` finds indices, an interpolation does occur in `s`.
proof fn lemma_interp_parts_sound(s: Seq<char>)
    requires
        interp_parts(s) is Some,
    ensures
        contains_interpolation(s),
{
    let i = find_from(s, interp_open(), 0)->0;
    let j = find_from(s, seq!['.'], i + 3)->0;
    let k = find_from(s, seq!['}'], j + 2)->0;
    lemma_find_from_props(s, interp_open(), 0);
    lemma_find_from_props(s, seq!['.'], i + 3);
    lemma_find_from_props(s, seq!['}'], j + 2);
    assert(s[j] == '.') by {
        assert(s.subrange(j, j + 1) == seq!['.']);
        assert(s.subrange(j, j + 1)[0] == s[j]);
    }
    assert(s[k] == '}') by {
        assert(s.subrange(k, k + 1) == seq!['}']);
        assert(s.subrange(k, k + 1)[0] == s[k]);
    }
    assert(token_at(s, interp_open(), i) && i + 3 <= j && s[j] == '.' && j < s.len() && j + 2 <= k
        && k < s.len() && s[k] == '}');
}

} // verus!
