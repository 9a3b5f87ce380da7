pub mod key_code;
pub mod key_list;

pub use key_code::{KeyCode, KeyModifiers, MediaKeyCode, ModifierKeyCode};
pub use key_list::{key_match, GituiKeyEvent, KeyEvent, KeysList};
