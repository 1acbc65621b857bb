//! The field-level difference between the images before and after an update.

use vstd::prelude::*;
use crate::image::{Field, ImageView, fields_view, image_or_empty, parsed_image, parse_image};

verus! {

/// A field whose value changed: its name, its value before (`None` where the
/// old image lacked the field) and its value after, each as JSON text.
#[derive(Clone, Debug)]
pub struct FieldChange {
    pub name: String,
    pub old: Option<String>,
    pub new: String,
}

impl View for FieldChange {
    type V = (Seq<char>, Option<Seq<char>>, Seq<char>);

    open spec fn view(&self) -> (Seq<char>, Option<Seq<char>>, Seq<char>) {
        (self.name@, match self.old {
            Some(s) => Some(s@),
            None => None,
        }, self.new@)
    }
}

/// A set of changed fields as a sequence of (name, old, new) triples.
pub type ChangesView = Seq<(Seq<char>, Option<Seq<char>>, Seq<char>)>;

/// The changes held in a vector.
pub open spec fn changes_view(changes: Seq<FieldChange>) -> ChangesView {
    changes.map_values(|c: FieldChange| c@)
}

/// The value of field `name` in `img` (its last occurrence), if any.
pub open spec fn lookup(img: ImageView, name: Seq<char>) -> Option<Seq<char>>
    decreases img.len(),
{
    if img.len() == 0 {
        None
    } else if img.last().0 == name {
        Some(img.last().1)
    } else {
        lookup(img.drop_last(), name)
    }
}

/// The fields of `new_img`, in its order, whose value differs from the one
/// in `old_img`, a field missing there counting as different.
pub open spec fn diff_of(new_img: ImageView, old_img: ImageView) -> ChangesView
    decreases new_img.len(),
{
    if new_img.len() == 0 {
        Seq::empty()
    } else {
        let prev = diff_of(new_img.drop_last(), old_img);
        let f = new_img.last();
        let before = lookup(old_img, f.0);
        if before == Some(f.1) {
            prev
        } else {
            prev.push((f.0, before, f.1))
        }
    }
}

/// The diff of two image texts: empty where either is not a JSON object.
pub open spec fn diff_of_texts(new_text: Seq<char>, old_text: Seq<char>) -> ChangesView {
    match (parsed_image(new_text), parsed_image(old_text)) {
        (Some(n), Some(o)) => diff_of(n, o),
        _ => Seq::empty(),
    }
}

/// Finds the value of field `name` in `img`.
pub fn find_field(img: &Vec<Field>, name: &String) -> (r: Option<String>)
    ensures
        match r {
            Some(s) => lookup(fields_view(img@), name@) == Some(s@),
            None => lookup(fields_view(img@), name@) is None,
        },
{
    let ghost all = fields_view(img@);
    let mut i: usize = img.len();
    assert(all.subrange(0, i as int) =~= all);
    while i > 0
        invariant
            all == fields_view(img@),
            i <= img.len(),
            lookup(all, name@) == lookup(all.subrange(0, i as int), name@),
        decreases i,
    {
        let ghost cur = all.subrange(0, i as int);
        assert(cur.drop_last() =~= all.subrange(0, i - 1));
        assert(cur.last() == img[i - 1]@);
        if img[i - 1].name == *name {
            return Some(img[i - 1].value.clone());
        }
        i = i - 1;
    }
    assert(all.subrange(0, 0) =~= Seq::<(Seq<char>, Seq<char>)>::empty());
    None
}

/// Computes the changed fields between two parsed images.
pub fn diff_images(new_img: &Vec<Field>, old_img: &Vec<Field>) -> (r: Vec<FieldChange>)
    ensures
        changes_view(r@) == diff_of(fields_view(new_img@), fields_view(old_img@)),
{
    let ghost n = fields_view(new_img@);
    let ghost o = fields_view(old_img@);
    let mut r: Vec<FieldChange> = Vec::new();
    let mut i: usize = 0;
    while i < new_img.len()
        invariant
            n == fields_view(new_img@),
            o == fields_view(old_img@),
            i <= new_img.len(),
            changes_view(r@) == diff_of(n.subrange(0, i as int), o),
        decreases new_img.len() - i,
    {
        let ghost before = n.subrange(0, i as int);
        let ghost after = n.subrange(0, i + 1);
        assert(after.drop_last() =~= before);
        assert(after.last() == new_img[i as int]@);
        let f = &new_img[i];
        let prior = find_field(old_img, &f.name);
        let same = match &prior {
            Some(v) => *v == f.value,
            None => false,
        };
        if !same {
            let ghost old_r = r@;
            let change = FieldChange { name: f.name.clone(), old: prior, new: f.value.clone() };
            r.push(change);
            assert(changes_view(r@) =~= changes_view(old_r).push(change@));
        }
        i = i + 1;
    }
    assert(n.subrange(0, new_img.len() as int) =~= n);
    r
}

/// Computes the changed fields between the image texts of an update. An
/// image that is not a JSON object leaves nothing to compare: the result
/// is then empty.
pub fn compute_diff(new_data: &str, old_data: &str) -> (r: Vec<FieldChange>)
    ensures
        changes_view(r@) == diff_of_texts(new_data@, old_data@),
{
    let new_img = parse_image(new_data);
    let old_img = parse_image(old_data);
    match (new_img, old_img) {
        (Some(n), Some(o)) => diff_images(&n, &o),
        _ => {
            let r: Vec<FieldChange> = Vec::new();
            assert(changes_view(r@) =~= Seq::empty());
            r
        },
    }
}

/// An image text that is not a JSON object does not stop the stream: it
/// reads as the empty image, and a diff against it, either way round, is
/// empty.
pub proof fn lemma_malformed_image_is_empty(text: Seq<char>, other: Seq<char>)
    requires
        parsed_image(text) is None,
    ensures
        image_or_empty(text) == Seq::<(Seq<char>, Seq<char>)>::empty(),
        diff_of_texts(text, other) == Seq::<(Seq<char>, Option<Seq<char>>, Seq<char>)>::empty(),
        diff_of_texts(other, text) == Seq::<(Seq<char>, Option<Seq<char>>, Seq<char>)>::empty(),
{
}

} // verus!
