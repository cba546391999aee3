//! Mouse input and its report to the shell process.

use crate::escape::decimal;
use crate::escape::signed_decimal;
use crate::escape::BRACKET;
use crate::escape::ESC;
use crate::escape::LESS_THAN;
use crate::escape::SEMICOLON;
use vstd::prelude::*;

verus! {

/// The protocol in which the process wants mouse events reported.
#[derive(Debug, Clone)]
pub enum MouseMode {
    /// The SGR protocol: numbers in decimal, press and release told apart by
    /// the last letter.
    Sgr,
    /// The older protocol that reports in three raw bytes. It is accepted
    /// and reports nothing.
    Normal,
}

/// What happened on the mouse.
#[derive(Debug, Clone)]
pub enum MouseButton {
    LeftButton,
    MiddleButton,
    RightButton,
    LeftMove,
    MiddleMove,
    RightMove,
    NoneMove,
    ScrollUp,
    ScrollDown,
    Other,
}

/// What the pointer does to a link under it.
#[derive(Debug, Clone)]
pub enum LinkAction {
    Clear,
    Hover,
    Open,
}

/// A cell of the grid. Lines and columns count from zero; lines above the
/// screen, in the history, are negative.
#[derive(Debug, Clone, Copy, PartialEq, Eq)]
pub struct Point {
    pub line: i32,
    pub column: usize,
}

impl MouseButton {
    /// The number that stands for the button in a mouse report.
    pub open spec fn code_of(self) -> u8 {
        match self {
            MouseButton::LeftButton => 0,
            MouseButton::MiddleButton => 1,
            MouseButton::RightButton => 2,
            MouseButton::LeftMove => 32,
            MouseButton::MiddleMove => 33,
            MouseButton::RightMove => 34,
            MouseButton::NoneMove => 35,
            MouseButton::ScrollUp => 64,
            MouseButton::ScrollDown => 65,
            MouseButton::Other => 99,
        }
    }

    /// The number that stands for the button in a mouse report.
    pub fn code(&self) -> (code: u8)
        ensures
            code == self.code_of(),
    {
        match self {
            MouseButton::LeftButton => 0,
            MouseButton::MiddleButton => 1,
            MouseButton::RightButton => 2,
            MouseButton::LeftMove => 32,
            MouseButton::MiddleMove => 33,
            MouseButton::RightMove => 34,
            MouseButton::NoneMove => 35,
            MouseButton::ScrollUp => 64,
            MouseButton::ScrollDown => 65,
            MouseButton::Other => 99,
        }
    }
}

/// `M`, which ends the report of a press.
pub const PRESSED: u8 = 0x4d;

/// `m`, which ends the report of a release.
pub const RELEASED: u8 = 0x6d;

/// The last byte of an SGR report: `M` for a press, `m` for a release.
pub open spec fn sgr_final(pressed: bool) -> u8 {
    if pressed {
        PRESSED
    } else {
        RELEASED
    }
}

/// The SGR report of a mouse event: `ESC [ <`, the button's code, `;`, the
/// column, `;`, the line, and `M` or `m`. Column and line count from one.
pub open spec fn sgr_report(button: MouseButton, point: Point, pressed: bool) -> Seq<u8> {
    seq![ESC, BRACKET, LESS_THAN] + decimal(button.code_of() as nat) + seq![SEMICOLON] + decimal(
        (point.column + 1) as nat,
    ) + seq![SEMICOLON] + signed_decimal(point.line + 1) + seq![sgr_final(pressed)]
}

} // verus!
