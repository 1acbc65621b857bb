//! Row images: the JSON objects that the triggers write into the log.

use vstd::prelude::*;

verus! {

/// One field of a row image: its name and the JSON text of its value.
#[derive(Clone, Debug)]
pub struct Field {
    pub name: String,
    pub value: String,
}

impl View for Field {
    type V = (Seq<char>, Seq<char>);

    open spec fn view(&self) -> (Seq<char>, Seq<char>) {
        (self.name@, self.value@)
    }
}

/// A row image as a sequence of (name, value text) pairs.
pub type ImageView = Seq<(Seq<char>, Seq<char>)>;

/// The fields of a row image held in a vector.
pub open spec fn fields_view(fields: Seq<Field>) -> ImageView {
    fields.map_values(|f: Field| f@)
}

/// What serde_json makes of `text` read as a JSON object: its fields, each
/// value in compact JSON text, or nothing where `text` is not an object.
pub uninterp spec fn parsed_image(text: Seq<char>) -> Option<ImageView>;

/// The image that `text` stands for, an unparsable one counting as empty.
pub open spec fn image_or_empty(text: Seq<char>) -> ImageView {
    match parsed_image(text) {
        Some(img) => img,
        None => Seq::empty(),
    }
}

/// Relies on `serde_json::from_str` into a `serde_json::Map` to read a JSON
/// object, and on `Display` of `serde_json::Value` for each value's text.
#[verifier::external_body]
fn parse_object(text: &str) -> (r: Option<Vec<Field>>)
    ensures
        match r {
            Some(v) => parsed_image(text@) == Some(fields_view(v@)),
            None => parsed_image(text@) is None,
        },
{
    let map: serde_json::Map<String, serde_json::Value> = serde_json::from_str(text).ok()?;
    Some(map.into_iter().map(|(name, value)| Field { name, value: value.to_string() }).collect())
}

/// Reads a row image; `None` where `text` is not a JSON object.
pub fn parse_image(text: &str) -> (r: Option<Vec<Field>>)
    ensures
        match r {
            Some(v) => parsed_image(text@) == Some(fields_view(v@)),
            None => parsed_image(text@) is None,
        },
{
    parse_object(text)
}

/// Reads a row image, an unparsable one giving the empty image.
pub fn image_from_text(text: &str) -> (r: Vec<Field>)
    ensures
        fields_view(r@) == image_or_empty(text@),
{
    match parse_object(text) {
        Some(v) => v,
        None => {
            let r: Vec<Field> = Vec::new();
            assert(fields_view(r@) =~= Seq::empty());
            r
        },
    }
}

} // verus!
