//! What holds from the client's argument to the plugin's insertion.
use vstd::prelude::*;

use crate::client::{ClientEventView, ClientView};
use crate::client_laws::{client_run, law_only_checked_paths_are_sent};
use crate::insert::{
    insert_start, AliasEventView, AliasPhaseView, InsertReportView, InsertView,
    MAX_OBJECT_FILE_SIZE,
};
use crate::insert_laws::{
    alias_run, good_file_events, insert_run, law_good_file_is_inserted,
    law_insertion_ends_as_the_file, section_run,
};
use crate::protocol::{
    law_le_units_of_le_bytes, law_payload_carries_text, law_payload_round_trip, payload_of,
    MAX_PAYLOAD_BYTES,
};
use crate::server::{not_reading, ServerView};
use crate::server_laws::{law_sent_path_is_inserted, message_events, system_run_from, System};
use crate::utf16::text_units;

verus! {

/// The length of a payload: two bytes for each code unit and for the NUL.
pub proof fn law_payload_length(text: Seq<char>)
    ensures
        payload_of(text).len() == 2 * (text_units(text).len() + 1),
{
    law_le_units_of_le_bytes(text_units(text).push(0u16));
}

/// What the client writes for a path without NUL reaches the plugin, however the pipe cuts it
/// up: if it is not too long and no shutdown has begun, the server hands on the very path that
/// the client was given. The insertion of that path goes beyond its first check, and if the host
/// is ready and the file is good, an object is created from the file's text where the cursor
/// stands; once the host has made it, the alias counts as inserted.
pub proof fn law_client_path_reaches_insertion(
    program: Seq<char>,
    path: Seq<char>,
    events: Seq<ClientEventView>,
    client_pipe: isize,
    payload: Seq<u8>,
    system: System,
    server_pipe: isize,
    pieces: Seq<Seq<u8>>,
    last_piece: Seq<u8>,
    file: usize,
    bytes: u64,
    alias: Seq<char>,
    layer: usize,
    frame: usize,
)
    requires
        client_run(program, seq![path], events) == (ClientView::Write {
            pipe: client_pipe,
            payload,
        }),
        !path.contains('\0'),
        payload.len() <= MAX_PAYLOAD_BYTES,
        system.server == (ServerView::Read { pipe: server_pipe, message: seq![] }),
        !system.plugin.shutdown_flag,
        pieces.flatten() + last_piece == payload,
        bytes <= MAX_OBJECT_FILE_SIZE,
    ensures
        system_run_from(system, message_events(pieces, last_piece)) == (System {
            server: ServerView::Insert { path },
            plugin: not_reading(system.plugin),
        }),
        insert_start(path) == (InsertView::CheckReady { path }),
        insert_run(path, section_run(path, good_file_events(file, bytes, alias, layer, frame))) == (
        InsertView::EditSection { path }),
        alias_run(path, good_file_events(file, bytes, alias, layer, frame)) == (AliasPhaseView::Create {
            alias,
            layer,
            frame,
            length: 0,
        }),
        insert_run(
            path,
            section_run(
                path,
                good_file_events(file, bytes, alias, layer, frame).push(
                    AliasEventView::Created { failure: None },
                ),
            ),
        ) == (InsertView::Finished { report: InsertReportView::Inserted }),
{
    law_only_checked_paths_are_sent(program, seq![path], events, client_pipe, payload);
    law_payload_carries_text(path);
    law_payload_round_trip(path, path);
    law_sent_path_is_inserted(system, server_pipe, path, pieces, last_piece);
    let events = good_file_events(file, bytes, alias, layer, frame);
    law_good_file_is_inserted(path, file, bytes, alias, layer, frame);
    law_insertion_ends_as_the_file(path, events);
    law_insertion_ends_as_the_file(path, events.push(AliasEventView::Created { failure: None }));
}

} // verus!
