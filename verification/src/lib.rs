//! State machines behind a native Git client.

pub mod clock;
pub mod creation;
pub mod domain;
pub mod encoding;
pub mod faults;
pub mod markdown_highlight;
pub mod notifications;
pub mod open_with;
pub mod page_window;
pub mod pr_browser;
pub mod pr_lifecycle;
pub mod private_files;
pub mod read_sync;
pub mod seqs;
pub mod sort;
pub mod text;
pub mod text_map;
pub mod workspace;

