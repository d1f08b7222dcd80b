//! Backend logic of a desktop shell: it tells shell commands apart, turns the
//! raw output of a finished command into the text shown to the user, decides
//! where the companion server's entry script is looked for, and builds the
//! messages that each operation reports.

pub mod greeting;
pub mod text;
pub mod command;
pub mod decode;
pub mod messages;
pub mod output;
pub mod launch;
