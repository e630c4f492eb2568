//! Session header cards, landing screen and transcript cards for a terminal
//! chat client, with the layout arithmetic and line construction verified.

pub mod width;
pub mod text;
pub mod line_truncation;
pub mod border;
pub mod permissions;
pub mod directory;
pub mod session_header;
pub mod card;
pub mod wordmark;
pub mod landing;
pub mod session;
