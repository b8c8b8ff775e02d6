use vstd::prelude::*;

verus! {

/// What the JSON decoder yields for a text: the fields of the decoded
/// object in the decoder's fixed order, each a key-value pair of decoded
/// strings, or nothing when the text is not a JSON object whose values are
/// all strings. The decoding of a given text is one fixed value; this name
/// stands for it.
pub uninterp spec fn json_string_object_of(text: Seq<char>) -> Option<Seq<(Seq<char>, Seq<char>)>>;

/// The fields of a decoded object, as abstract pairs.
pub open spec fn pairs_view(fields: Seq<(String, String)>) -> Seq<(Seq<char>, Seq<char>)> {
    fields.map_values(|p: (String, String)| (p.0@, p.1@))
}

/// Relies on `serde_json::from_str` with a `BTreeMap<String, String>`
/// target: it succeeds exactly when the input text is one JSON object
/// whose values are all strings, the outcome depends on the text alone,
/// and the map fixes the order the fields come out in.
#[verifier::external_body]
fn parse_string_object(text: &str) -> (r: Option<Vec<(String, String)>>)
    ensures
        r is Some <==> json_string_object_of(text@) is Some,
        r matches Some(fields) ==> Some(pairs_view(fields@)) == json_string_object_of(text@),
{
    match serde_json::from_str::<std::collections::BTreeMap<String, String>>(text) {
        Ok(map) => Some(map.into_iter().collect()),
        Err(_) => None,
    }
}

/// The name and content strings of a well-shaped creation payload: the
/// decoded fields must be exactly `name` and `content`, in either order.
pub open spec fn spec_extract_payload(
    fields: Seq<(Seq<char>, Seq<char>)>,
) -> Option<(Seq<char>, Seq<char>)> {
    if fields.len() == 2 {
        if fields[0].0 == "name"@ && fields[1].0 == "content"@ {
            Some((fields[0].1, fields[1].1))
        } else if fields[0].0 == "content"@ && fields[1].0 == "name"@ {
            Some((fields[1].1, fields[0].1))
        } else {
            None
        }
    } else {
        None
    }
}

/// What a creation payload text decodes to: the `name` and `content`
/// strings, or nothing when the text is not a JSON object with exactly
/// those two string fields.
pub open spec fn payload_of(text: Seq<char>) -> Option<(Seq<char>, Seq<char>)> {
    match json_string_object_of(text) {
        Some(fields) => spec_extract_payload(fields),
        None => None,
    }
}

/// Picks the `name` and `content` strings out of the decoded fields,
/// refusing any other shape.
pub fn extract_payload(fields: Vec<(String, String)>) -> (r: Option<(String, String)>)
    ensures
        (match r {
            Some(p) => Some((p.0@, p.1@)),
            None => None,
        }) == spec_extract_payload(pairs_view(fields@)),
{
    proof {
        assert(pairs_view(fields@).len() == fields@.len());
    }
    if fields.len() != 2 {
        return None;
    }
    let name_key: String = "name".to_owned();
    let content_key: String = "content".to_owned();
    proof {
        assert(pairs_view(fields@)[0] == (fields@[0].0@, fields@[0].1@));
        assert(pairs_view(fields@)[1] == (fields@[1].0@, fields@[1].1@));
    }
    let first_is_name = fields[0].0 == name_key;
    let first_is_content = fields[0].0 == content_key;
    let second_is_name = fields[1].0 == name_key;
    let second_is_content = fields[1].0 == content_key;
    let mut fields = fields;
    if first_is_name && second_is_content {
        let second = fields.pop().unwrap();
        let first = fields.pop().unwrap();
        Some((first.1, second.1))
    } else if first_is_content && second_is_name {
        let second = fields.pop().unwrap();
        let first = fields.pop().unwrap();
        Some((second.1, first.1))
    } else {
        None
    }
}

/// Decodes a creation payload text into its `name` and `content` strings,
/// or nothing when the text is malformed for this block type.
pub fn parse_payload(text: &str) -> (r: Option<(String, String)>)
    ensures
        (match r {
            Some(p) => Some((p.0@, p.1@)),
            None => None,
        }) == payload_of(text@),
{
    match parse_string_object(text) {
        Some(fields) => extract_payload(fields),
        None => None,
    }
}

} // verus!
