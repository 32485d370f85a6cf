//! Screen-capture analysis for the game window: finds the quality rhombus of
//! the item under the cursor, classifies its colour, and keeps the small
//! amount of state the capture, processing and display stages share.
pub mod types;
pub mod imagework;
pub mod parser;
pub mod classifier;
pub mod historybar;
pub mod processor;
pub mod grabber;
pub mod recognition;
