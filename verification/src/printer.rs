use vstd::prelude::*;

use crate::config::ConfigManager;

verus! {

/// Declares std::io::Error so that the printing traits can pass it
/// through; nothing is assumed of its values.
#[verifier::external_type_specification]
#[verifier::external_body]
pub struct ExIoError(std::io::Error);

/// Plain writing of text; the front end implements it over a terminal
/// stream.
pub trait Print {
    fn print(&mut self, value: &str) -> std::io::Result<()>;

    fn println(&mut self, value: &str) -> std::io::Result<()>;
}

/// Decorated writing of text; the front end implements it over a terminal
/// stream that understands color.
pub trait PrintHelper {
    fn print_welcome(&mut self) -> std::io::Result<()>;

    fn print_target_projects(&mut self, config: &ConfigManager) -> std::io::Result<()>;

    fn print_styled(&mut self, value: &str, opts: PrintOptions) -> std::io::Result<()>;

    fn println_styled(&mut self, value: &str, opts: PrintOptions) -> std::io::Result<()>;
}

/// A printer over some writer.
pub struct Printer<W> {
    pub writer: W,
}

impl<W> Printer<W> {
    pub fn new(writer: W) -> (r: Printer<W>)
        ensures
            r == (Printer { writer }),
    {
        Printer { writer }
    }
}

/// The colors the palette draws on.
#[derive(Clone, Copy, Debug, PartialEq, Eq, Structural)]
pub enum Color {
    Green,
    Blue,
}

/// How one piece of text is decorated.
#[derive(Clone, Copy, Debug, PartialEq, Eq, Structural)]
pub struct PrintOptions {
    pub color: Color,
    pub is_bold: bool,
}

/// The fixed palette the pipeline prints with.
pub enum ColorPalette {
    BoldGreen,
    Blue,
}

/// The decoration each palette entry stands for.
pub open spec fn palette_options(c: ColorPalette) -> PrintOptions {
    match c {
        ColorPalette::BoldGreen => PrintOptions { color: Color::Green, is_bold: true },
        ColorPalette::Blue => PrintOptions { color: Color::Blue, is_bold: false },
    }
}

impl ColorPalette {
    pub fn to_color(&self) -> (r: PrintOptions)
        ensures
            r == palette_options(*self),
    {
        match self {
            ColorPalette::BoldGreen => PrintOptions { color: Color::Green, is_bold: true },
            ColorPalette::Blue => PrintOptions { color: Color::Blue, is_bold: false },
        }
    }

    pub fn print<W: Print + PrintHelper>(&mut self, value: &str, writer: &mut W) -> std::io::Result<
        (),
    > {
        match writer.print_styled(value, self.to_color()) {
            Result::Ok(_) => Result::Ok(()),
            Result::Err(e) => Result::Err(e),
        }
    }

    pub fn println<W: Print + PrintHelper>(
        &mut self,
        value: &str,
        writer: &mut W,
    ) -> std::io::Result<()> {
        match writer.println_styled(value, self.to_color()) {
            Result::Ok(_) => Result::Ok(()),
            Result::Err(e) => Result::Err(e),
        }
    }
}

} // verus!
