pub mod catalog;
pub mod event;
pub mod fisher;
pub mod potions;
pub mod reader;
pub mod scanner;
