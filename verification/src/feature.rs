//! Features, and the lines that declare them in the manifest.

use crate::utf8::encode_utf8_concat;
use vstd::prelude::*;
use vstd::utf8::encode_utf8;

verus! {

/// A named toggle of the generated package.
#[derive(Debug, PartialEq, Eq)]
pub struct Feature {
    pub name: String,
}

/// The characters that follow a feature's name on its line of the manifest:
/// ` = []` and a line feed.
pub open spec fn line_tail() -> Seq<char> {
    seq![' ', '=', ' ', '[', ']', '\n']
}

/// The manifest line that declares a feature called `name`, line feed included.
pub open spec fn feature_line(name: Seq<char>) -> Seq<char> {
    name + line_tail()
}

/// The lines that declare the features called `names`, one after the other in
/// the order of `names`.
pub open spec fn feature_lines(names: Seq<Seq<char>>) -> Seq<char> {
    names.map_values(|name: Seq<char>| feature_line(name)).flatten()
}

/// The lines grow at the end: one more name adds its line after the lines of
/// the names before it.
pub proof fn feature_lines_push(names: Seq<Seq<char>>, name: Seq<char>)
    ensures
        feature_lines(Seq::empty()) == Seq::<char>::empty(),
        feature_lines(names.push(name)) == feature_lines(names) + feature_line(name),
{
    let lines = names.map_values(|name: Seq<char>| feature_line(name));
    assert(names.push(name).map_values(|name: Seq<char>| feature_line(name)) =~= lines.push(
        feature_line(name),
    ));
    lines.lemma_flatten_push(feature_line(name));
}

/// The names of `features`, in their order.
pub open spec fn names_of(features: Seq<Feature>) -> Seq<Seq<char>> {
    features.map_values(|feature: Feature| feature.name@)
}

/// The lines that declare the features called `names`, each as the bytes of
/// its UTF-8 encoding.
pub open spec fn line_chunks(names: Seq<Seq<char>>) -> Seq<Seq<u8>> {
    names.map_values(|name: Seq<char>| encode_utf8(feature_line(name)))
}

/// The encoded lines laid end to end are the encoding of the lines as one
/// text.
pub proof fn line_chunks_flatten(names: Seq<Seq<char>>)
    ensures
        line_chunks(names).flatten() == encode_utf8(feature_lines(names)),
    decreases names.len(),
{
    let texts = names.map_values(|name: Seq<char>| feature_line(name));
    if names.len() > 0 {
        let rest = names.drop_first();
        assert(texts.drop_first() =~= rest.map_values(|name: Seq<char>| feature_line(name)));
        assert(line_chunks(names).drop_first() =~= line_chunks(rest));
        line_chunks_flatten(rest);
        encode_utf8_concat(texts.first(), texts.drop_first().flatten());
    }
}

impl Feature {
    /// The manifest line that declares this feature.
    pub fn line(&self) -> (line: String)
        ensures
            line@ == feature_line(self.name@),
    {
        proof {
            reveal_strlit(" = []\n");
        }
        let mut line = self.name.clone();
        line.append(" = []\n");
        line
    }
}

} // verus!
