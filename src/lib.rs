pub mod colors;
pub mod util;
pub mod widgets;
