//! The logic of an AviUtl2 plugin that inserts alias files into the timeline on request, and of
//! the command line client that requests it.
//!
//! A client checks a path, encodes it ([`protocol`]) and writes it to a named pipe
//! ([`client`]). The plugin serves the pipe ([`server`]), puts the message together
//! ([`reader`]), and inserts the alias file at the path ([`insert`]) until it is unloaded
//! ([`plugin`]). Each pipe instance is created so that only the owner of the process is let in
//! ([`creation`], [`security`]).
//!
//! Nothing here performs I/O. Each flow is a state that names what has to be done next, and a
//! function from that state and what came of it to the next state.
pub mod alias_path;
pub mod client;
pub mod client_laws;
pub mod creation;
pub mod delivery_laws;
pub mod insert;
pub mod insert_laws;
pub mod open_failure;
pub mod pipes;
pub mod plugin;
pub mod protocol;
pub mod reader;
pub mod runs;
pub mod security;
pub mod server;
pub mod server_laws;
pub mod text;
pub mod utf16;
pub mod view_laws;
pub mod win32;
