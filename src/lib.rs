use vstd::prelude::*;

pub mod app;
pub mod dispatch;
pub mod models;
pub mod selection;
pub mod text;
pub mod tmux;

verus! {

} // verus!
