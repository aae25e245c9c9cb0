use vstd::prelude::*;

pub mod response;
pub mod text;
pub mod codec;
pub mod session;
pub mod i18n;
pub mod menu;
pub mod monitor;
pub mod updates;
pub mod logline;
pub mod commands;

verus! {

} // verus!
