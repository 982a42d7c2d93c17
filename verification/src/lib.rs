//! A modal, keyboard-driven editor for one table of typed columns and
//! text-valued cells.
//!
//! The library is the engine of the editor and nothing else: it reads no
//! keyboard, paints no terminal and touches no file. Its driver hands it one
//! key at a time and carries out what it answers with.
//!
//! - [`text`], [`number`], [`date`]: text measures and fittings, decimal
//!   integers, calendar dates and their two textual shapes.
//! - [`column`]: the column types, and what each displays for a cell and
//!   with which status.
//! - [`model`]: the document as mathematics, with every structural operation
//!   and cursor movement as a function on it.
//! - [`table`]: the document itself, whose operations are stated by the
//!   model.
//! - [`render`], [`screen`]: the description of what is to be painted.
//! - [`command`]: the command line.
//! - [`editor`]: the modal state machine from key to key.
//! - [`laws`]: what holds of all of this, proved.

pub mod column;
pub mod command;
pub mod date;
pub mod editor;
pub mod laws;
pub mod model;
pub mod number;
pub mod render;
pub mod screen;
pub mod table;
pub mod text;
