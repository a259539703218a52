//! What the three operations of a manifest do to its file, one after the
//! other, on a file system that behaves as `FileState` says.

use crate::cargo_toml::{append_actions, header_bytes, header_text, init_actions, remove_actions};
use crate::feature::{feature_lines, line_chunks, line_chunks_flatten};
use crate::file_state::{carry_out, FileState, Outcome};
use crate::plan::{Action, Fault};
use crate::utf8::encode_utf8_concat;
use vstd::prelude::*;
use vstd::utf8::{decode_utf8, encode_utf8, encode_utf8_decode_utf8, encode_utf8_valid_utf8, valid_utf8};

verus! {

/// Where no file lies, `init` succeeds and leaves a file that holds the header,
/// byte for byte, and nothing else.
pub proof fn init_writes_the_header()
    ensures
        carry_out(None, init_actions()) == Outcome::done(Some(header_bytes())),
{
    let create = seq![Action::CreateNew];
    let write = seq![Action::Write(header_bytes())];
    let flush = seq![Action::Flush];
    let start = FileState::closed(None);
    let created = FileState { file: Some(Seq::empty()), pending: Some(Seq::empty()) };
    let written = FileState { file: Some(Seq::empty()), pending: Some(header_bytes()) };
    start.run_single(Action::CreateNew);
    created.run_single(Action::Write(header_bytes()));
    written.run_single(Action::Flush);
    start.run_concat(create, write);
    start.run_concat(create + write, flush);
    assert(init_actions() =~= create + write + flush);
}

/// Where a file lies, whatever it holds, `init` fails with `AlreadyExists` and
/// leaves the file as it was.
pub proof fn init_keeps_an_existing_file(content: Seq<u8>)
    ensures
        carry_out(Some(content), init_actions()) == Outcome::failed(
            Some(content),
            Fault::AlreadyExists,
        ),
{
}

/// A second `init` with no `remove` in between fails with `AlreadyExists`, and
/// the file holds after it what the first `init` left.
pub proof fn second_init_fails()
    ensures
        ({
            let first = carry_out(None, init_actions());
            let second = carry_out(first.file, init_actions());
            &&& first.result is Ok
            &&& second == Outcome::failed(first.file, Fault::AlreadyExists)
        }),
{
    init_writes_the_header();
    init_keeps_an_existing_file(header_bytes());
}

/// `append_features` on a file that lies there succeeds and adds to its
/// content one line per feature, in the order of `names`, each line the name
/// followed by ` = []` and a line feed. What the file held stays in front,
/// untouched.
pub proof fn append_adds_a_line_per_feature(content: Seq<u8>, names: Seq<Seq<char>>)
    ensures
        carry_out(Some(content), append_actions(names)) == Outcome::done(
            Some(content + encode_utf8(feature_lines(names))),
        ),
{
    let added = encode_utf8(feature_lines(names));
    let open = seq![Action::OpenAppend];
    let writes = line_chunks(names).map_values(|bytes: Seq<u8>| Action::Write(bytes));
    let flush = seq![Action::Flush];
    let start = FileState::closed(Some(content));
    let opened = FileState { file: Some(content), pending: Some(Seq::empty()) };
    let written = FileState { file: Some(content), pending: Some(added) };
    start.run_single(Action::OpenAppend);
    opened.run_writes(line_chunks(names));
    line_chunks_flatten(names);
    written.run_single(Action::Flush);
    start.run_concat(open, writes);
    start.run_concat(open + writes, flush);
}

/// `append_features` after `init` leaves a file that holds the header followed
/// by the lines of the features, in their order.
pub proof fn append_after_init(names: Seq<Seq<char>>)
    ensures
        carry_out(carry_out(None, init_actions()).file, append_actions(names)) == Outcome::done(
            Some(encode_utf8(header_text() + feature_lines(names))),
        ),
{
    init_writes_the_header();
    append_adds_a_line_per_feature(header_bytes(), names);
    encode_utf8_concat(header_text(), feature_lines(names));
}

/// Read back as text, the file that `init` and `append_features` leave is
/// valid UTF-8, and it is the header followed by the lines of the features.
pub proof fn manifest_reads_back_as_text(names: Seq<Seq<char>>)
    ensures
        ({
            let written = carry_out(carry_out(None, init_actions()).file, append_actions(names));
            &&& written.file is Some
            &&& valid_utf8(written.file->0)
            &&& decode_utf8(written.file->0) == header_text() + feature_lines(names)
        }),
{
    append_after_init(names);
    encode_utf8_valid_utf8(header_text() + feature_lines(names));
    encode_utf8_decode_utf8(header_text() + feature_lines(names));
}

/// `append_features` with no feature succeeds and leaves the content of the
/// file as it was; after `init`, that is the header.
pub proof fn append_of_nothing_changes_nothing(content: Seq<u8>)
    ensures
        carry_out(Some(content), append_actions(Seq::empty())) == Outcome::done(Some(content)),
        carry_out(carry_out(None, init_actions()).file, append_actions(Seq::empty()))
            == Outcome::done(Some(header_bytes())),
{
    let none = Seq::<Seq<char>>::empty();
    append_adds_a_line_per_feature(content, none);
    append_adds_a_line_per_feature(header_bytes(), none);
    init_writes_the_header();
}

/// Where no file lies, `append_features` fails with `NotFound` and creates
/// none.
pub proof fn append_needs_the_file(names: Seq<Seq<char>>)
    ensures
        carry_out(None, append_actions(names)) == Outcome::failed(None, Fault::NotFound),
{
}

/// `remove` on a file that lies there succeeds, and afterwards none lies
/// there.
pub proof fn remove_deletes_the_file(content: Seq<u8>)
    ensures
        carry_out(Some(content), remove_actions()) == Outcome::done(None),
{
    FileState::closed(Some(content)).run_single(Action::Remove);
}

/// Where no file lies, `remove` fails with `NotFound`.
pub proof fn remove_needs_the_file()
    ensures
        carry_out(None, remove_actions()) == Outcome::failed(None, Fault::NotFound),
{
    FileState::closed(None).run_single(Action::Remove);
}

/// After `remove`, `init` succeeds again, and the new file holds the header
/// and nothing of what the old one held.
pub proof fn init_after_remove_starts_afresh(content: Seq<u8>)
    ensures
        carry_out(carry_out(Some(content), remove_actions()).file, init_actions())
            == Outcome::done(Some(header_bytes())),
{
    remove_deletes_the_file(content);
    init_writes_the_header();
}

} // verus!
