//! The printer session: checks each command, encodes it and collects the
//! bytes that go to the device.

use vstd::prelude::*;

use crate::error::TsplError;
use crate::size::{dots_of, size_text, Size, Tape};
use crate::vocab::{
    Alignment, Barcode, BitmapMode, Codepage, Country, Font, HumanReadable, NarrowWide,
    QrCodeJustification, Rotation, RssType, Selftest,
};
use crate::wire::{command_line, decimal, quoted, spaced, utf8, Line};

verus! {

/// An argument holding a length converted to dots.
pub open spec fn dots_arg(s: Size, resolution: u32) -> Seq<u8> {
    decimal(dots_of(s, resolution))
}

/// An argument holding a number.
pub open spec fn num(n: int) -> Seq<u8> {
    decimal(n)
}

/// An argument holding a flag as `1` or `0`.
pub open spec fn flag(b: bool) -> Seq<u8> {
    if b {
        seq![49u8]
    } else {
        seq![48u8]
    }
}

/// An argument holding a text as it is.
pub open spec fn tok(s: Seq<char>) -> Seq<u8> {
    utf8(s)
}

/// Arguments of the RSS command; `extra` is the segment width or the linear
/// height, for the types that take one.
pub open spec fn rss_args(
    res: u32,
    x: Size,
    y: Size,
    rss_type: RssType,
    rotate: Rotation,
    module_width: Size,
    separator_height: usize,
    extra: Option<usize>,
    content: Seq<char>,
) -> Seq<Seq<u8>> {
    let head = seq![
        dots_arg(x, res),
        dots_arg(y, res),
        spaced(quoted(tok(rss_type.wire()))),
        tok(rotate.wire()),
        dots_arg(module_width, res),
        num(separator_height as int),
    ];
    let tail = spaced(quoted(utf8(content)));
    match extra {
        Some(v) => head.push(num(v as int)).push(tail),
        None => head.push(tail),
    }
}

/// Arguments of a command that takes one or two lengths in physical units.
pub open spec fn length_args(first: Size, second: Option<Size>) -> Seq<Seq<u8>> {
    match second {
        Some(s) => seq![size_text(first), size_text(s)],
        None => seq![size_text(first)],
    }
}

/// Arguments of a sensor calibration command: the paper and gap lengths in
/// dots, or none.
pub open spec fn calib_args(calib: Option<(Size, Size)>, res: u32) -> Seq<Seq<u8>> {
    match calib {
        Some((x, y)) => seq![dots_arg(x, res), dots_arg(y, res)],
        None => seq![],
    }
}

/// `o`, or that many dots when it is absent.
pub open spec fn or_dots(o: Option<Size>, d: i32) -> Size {
    match o {
        Some(s) => s,
        None => Size::Dots(d),
    }
}

/// Arguments of the BARCODE command.
pub open spec fn barcode_args(
    res: u32,
    x: Size,
    y: Size,
    code_type: Barcode,
    height: Size,
    human_readable: HumanReadable,
    rotate: Rotation,
    narrow_wide: NarrowWide,
    alignment: Option<Alignment>,
    content: Seq<char>,
) -> Seq<Seq<u8>> {
    let head = seq![
        dots_arg(x, res),
        dots_arg(y, res),
        quoted(tok(code_type.wire())),
        dots_arg(height, res),
        tok(human_readable.wire()),
        tok(rotate.wire()),
        tok(narrow_wide.wire()),
    ];
    let tail = spaced(quoted(utf8(content)));
    match alignment {
        Some(a) => head.push(tok(a.wire())).push(tail),
        None => head.push(tail),
    }
}

/// Arguments of the TLC39 command; absent sizes take their defaults
/// (height 40, narrow 2, wide 4, cell width 2, cell height 4 dots).
pub open spec fn tlc39_args(
    res: u32,
    x: Size,
    y: Size,
    rotate: Rotation,
    height: Option<Size>,
    narrow: Option<Size>,
    wide: Option<Size>,
    cellwidth: Option<Size>,
    cellheight: Option<Size>,
    eci_number: Seq<char>,
    serial_number: Seq<char>,
    additional_data: Seq<char>,
) -> Seq<Seq<u8>> {
    seq![
        dots_arg(x, res),
        dots_arg(y, res),
        tok(rotate.wire()),
        dots_arg(or_dots(height, 40), res),
        dots_arg(or_dots(narrow, 2), res),
        dots_arg(or_dots(wide, 4), res),
        dots_arg(or_dots(cellwidth, 2), res),
        dots_arg(or_dots(cellheight, 4), res),
        spaced(quoted(utf8(eci_number) + seq![44u8] + utf8(serial_number) + seq![44u8] + utf8(additional_data))),
    ]
}

/// Arguments of the AZTEC command: the content goes unquoted, after its
/// length in bytes.
pub open spec fn aztec_args(
    res: u32,
    x: Size,
    y: Size,
    rotate: Rotation,
    size: u8,
    ecp: u16,
    flg: bool,
    menu: bool,
    multi: u8,
    reversed: bool,
    content: Seq<char>,
) -> Seq<Seq<u8>> {
    seq![
        dots_arg(x, res),
        dots_arg(y, res),
        tok(rotate.wire()),
        num(size as int),
        num(ecp as int),
        flag(flg),
        flag(menu),
        num(multi as int),
        flag(reversed),
        num(utf8(content).len() as int),
        utf8(content),
    ]
}

/// Number of columns of a Micro PDF417 symbol: the requested one when it is
/// in 1..=4, else 0 (chosen by the printer).
pub open spec fn mpdf_columns(col_num: Option<usize>) -> int {
    match col_num {
        Some(c) => if 1 <= c <= 4 {
            c as int
        } else {
            0
        },
        None => 0,
    }
}

/// Wire letter of a QR code error correction level: up to 6 is `L`, up to 14
/// `M`, up to 24 `Q`, above that `H`.
pub open spec fn ecc_grade(level: u8) -> u8 {
    if level <= 6 {
        76u8
    } else if level <= 14 {
        77u8
    } else if level <= 24 {
        81u8
    } else {
        72u8
    }
}

/// Arguments of the QRCODE command, in automatic encoding mode.
pub open spec fn qrcode_args(
    res: u32,
    x: Size,
    y: Size,
    ecc_level: u8,
    cellwidth_dot: u8,
    rotate: Rotation,
    justification: Option<QrCodeJustification>,
    content: Seq<char>,
) -> Seq<Seq<u8>> {
    let head = seq![
        dots_arg(x, res),
        dots_arg(y, res),
        seq![ecc_grade(ecc_level)],
        num(cellwidth_dot as int),
        seq![65u8],
        tok(rotate.wire()),
    ];
    let tail = quoted(utf8(content));
    match justification {
        Some(j) => head.push(tok(j.wire())).push(tail),
        None => head.push(tail),
    }
}

/// Arguments of the TEXT command.
pub open spec fn text_args(
    res: u32,
    x: Size,
    y: Size,
    font: Font,
    rotate: Rotation,
    multiply_x: u8,
    multiply_y: u8,
    alignment: Option<Alignment>,
    content: Seq<char>,
) -> Seq<Seq<u8>> {
    let head = seq![
        dots_arg(x, res),
        dots_arg(y, res),
        quoted(tok(font.wire())),
        tok(rotate.wire()),
        num(multiply_x as int),
        num(multiply_y as int),
    ];
    let tail = spaced(quoted(utf8(content)));
    match alignment {
        Some(a) => head.push(tok(a.wire())).push(tail),
        None => head.push(tail),
    }
}

/// Arguments of a text block: the optional line spacing, alignment and fit
/// come, when present, between the multiplications and the content.
pub open spec fn block_args(
    res: u32,
    x: Size,
    y: Size,
    width: Size,
    height: Size,
    font: Font,
    rotate: Rotation,
    multiply_x: u8,
    multiply_y: u8,
    space: Option<Size>,
    alignment: Option<Alignment>,
    fit: Option<bool>,
    content: Seq<char>,
) -> Seq<Seq<u8>> {
    let a = seq![
        dots_arg(x, res),
        dots_arg(y, res),
        dots_arg(width, res),
        dots_arg(height, res),
        quoted(tok(font.wire())),
        tok(rotate.wire()),
        num(multiply_x as int),
        num(multiply_y as int),
    ];
    let a = match space {
        Some(sp) => a.push(dots_arg(sp, res)),
        None => a,
    };
    let a = match alignment {
        Some(al) => a.push(tok(al.wire())),
        None => a,
    };
    let a = match fit {
        Some(f) => a.push(flag(f)),
        None => a,
    };
    a.push(quoted(utf8(content)))
}

fn pick(o: Option<Size>, d: i32) -> (r: Size)
    ensures
        r == or_dots(o, d),
{
    match o {
        Some(s) => s,
        None => Size::Dots(d),
    }
}

/// A session with one printer.
///
/// It holds the printer's resolution, fixed for the whole session, and the
/// bytes of the commands encoded so far that have not been taken out yet.
/// Every command either appends exactly its own line to those bytes or is
/// refused and appends nothing, so a chain of calls joined by `?` stops at
/// the first refusal with the earlier lines in place.
///
/// Text arguments are written as given, inside double quotes where the
/// protocol quotes them; they are not escaped, so a caller must keep `"`,
/// CR and LF out of them.
pub struct Printer {
    resolution: u32,
    out: Vec<u8>,
}

/// The call succeeded and appended exactly `line` to the output.
pub open spec fn sent(r: Result<(), TsplError>, before: Printer, after: Printer, line: Seq<u8>) -> bool {
    &&& r is Ok
    &&& after.written() == before.written() + line
    &&& after.dpi() == before.dpi()
}

/// The call failed with `e` and wrote nothing.
pub open spec fn refused(r: Result<(), TsplError>, before: Printer, after: Printer, e: TsplError) -> bool {
    &&& r == Err::<(), TsplError>(e)
    &&& after.written() == before.written()
    &&& after.dpi() == before.dpi()
}

impl Printer {
    /// Bytes encoded so far and not yet taken out.
    pub closed spec fn written(&self) -> Seq<u8> {
        self.out@
    }

    /// Resolution of the printer, in dots per inch.
    pub closed spec fn dpi(&self) -> u32 {
        self.resolution
    }

    fn emit(&mut self, line: Line, Ghost(op): Ghost<Seq<char>>, Ghost(args): Ghost<Seq<Seq<u8>>>)
        requires
            line.wf(),
            line.op() == op,
            line.args() =~~= args,
        ensures
            final(self).written() == old(self).written() + command_line(op, args),
            final(self).dpi() == old(self).dpi(),
    {
        let bytes = line.finish();
        crate::wire::push_bytes(&mut self.out, bytes.as_slice());
    }

    /// Resolution of the printer, in dots per inch.
    pub fn resolution(&self) -> (r: u32)
        ensures
            r == self.dpi(),
    {
        self.resolution
    }

    /// Bytes encoded so far and not yet taken out.
    pub fn output(&self) -> (r: &[u8])
        ensures
            r@ == self.written(),
    {
        self.out.as_slice()
    }

    /// Takes out the bytes encoded so far, to hand them to the device.
    pub fn take_output(&mut self) -> (r: Vec<u8>)
        ensures
            r@ == old(self).written(),
            final(self).written() == Seq::<u8>::empty(),
            final(self).dpi() == old(self).dpi(),
    {
        let mut r: Vec<u8> = Vec::new();
        core::mem::swap(&mut r, &mut self.out);
        r
    }

    /// Starts a session with a printer of `dpi` dots per inch: declares the
    /// label size and gap of `tape`, then clears the image buffer.
    pub fn with_resolution(tape: Tape, dpi: u32) -> (p: Printer)
        ensures
            p.dpi() == dpi,
            p.written() == command_line("SIZE"@, length_args(tape.width, tape.height))
                + command_line("GAP"@, length_args(tape.gap, tape.gap_offset))
                + command_line("CLS"@, seq![]),
    {
        let mut p = Printer { resolution: dpi, out: Vec::new() };
        p.length_cmd("SIZE", tape.width, tape.height);
        p.length_cmd("GAP", tape.gap, tape.gap_offset);
        p.bare_cmd("CLS");
        assert(p.out@ =~= command_line("SIZE"@, length_args(tape.width, tape.height))
            + command_line("GAP"@, length_args(tape.gap, tape.gap_offset))
            + command_line("CLS"@, seq![]));
        p
    }

    fn length_cmd(&mut self, op: &str, first: Size, second: Option<Size>)
        ensures
            final(self).written() == old(self).written() + command_line(op@, length_args(first, second)),
            final(self).dpi() == old(self).dpi(),
    {
        let mut line = Line::new(op);
        line.arg_bytes(first.text().as_slice());
        if let Some(s) = second {
            line.arg_bytes(s.text().as_slice());
        }
        self.emit(line, Ghost(op@), Ghost(length_args(first, second)));
    }

    /// This command defines the label width and height.
    /// Label length must be provided for firmware version <V8.13
    pub fn size(&mut self, width: Size, height: Option<Size>) -> (r: Result<(), TsplError>)
        ensures
            sent(r, *old(self), *final(self), command_line("SIZE"@, length_args(width, height))),
    {
        self.length_cmd("SIZE", width, height);
        Ok(())
    }

    /// Defines the gap distance between two labels.
    /// Optional offset distance of the gap may be provided
    pub fn gap(&mut self, gap: Size, gap_offset: Option<Size>) -> (r: Result<(), TsplError>)
        ensures
            sent(r, *old(self), *final(self), command_line("GAP"@, length_args(gap, gap_offset))),
    {
        self.length_cmd("GAP", gap, gap_offset);
        Ok(())
    }

    fn detect_cmd(&mut self, op: &str, calib: Option<(Size, Size)>)
        ensures
            final(self).written() == old(self).written() + command_line(
                op@,
                calib_args(calib, old(self).dpi()),
            ),
            final(self).dpi() == old(self).dpi(),
    {
        let mut line = Line::new(op);
        if let Some((x, y)) = calib {
            line.arg_decimal(x.to_dots(self.resolution));
            line.arg_decimal(y.to_dots(self.resolution));
        }
        self.emit(line, Ghost(op@), Ghost(calib_args(calib, self.resolution)));
    }

    /// This command feeds the paper through the gap sensor in an effort
    /// to determine the paper and gap sizes, respectively.
    /// `calib` holds the approximate paper length and gap length; with `None`
    /// the printer determines both by itself.
    pub fn gap_detect(&mut self, calib: Option<(Size, Size)>) -> (r: Result<(), TsplError>)
        ensures
            sent(r, *old(self), *final(self), command_line("GAPDETECT"@, calib_args(calib, old(self).dpi()))),
    {
        self.detect_cmd("GAPDETECT", calib);
        Ok(())
    }

    /// This command feeds the paper through the black mark sensor in an effort to determine
    /// the paper and black mark sizes, respectively.
    /// `calib` holds the approximate paper length and gap length; with `None`
    /// the printer determines both by itself.
    pub fn bline_detect(&mut self, calib: Option<(Size, Size)>) -> (r: Result<(), TsplError>)
        ensures
            sent(r, *old(self), *final(self), command_line("BLINEDETECT"@, calib_args(calib, old(self).dpi()))),
    {
        self.detect_cmd("BLINEDETECT", calib);
        Ok(())
    }

    /// This command feeds the paper through the gap/black mark sensor in an effort to determine
    /// the paper and gap/black mark sizes, respectively.
    /// `calib` holds the approximate paper length and gap length; with `None`
    /// the printer determines both by itself.
    pub fn auto_detect(&mut self, calib: Option<(Size, Size)>) -> (r: Result<(), TsplError>)
        ensures
            sent(r, *old(self), *final(self), command_line("AUTODETECT"@, calib_args(calib, old(self).dpi()))),
    {
        self.detect_cmd("AUTODETECT", calib);
        Ok(())
    }

    /// This command sets the height of the black line and the user-defined extra label feeding length each form feed takes.
    /// Both parameters should be in the same measurement type (mm/inch/dot)
    pub fn bline(&mut self, black_line_height: Size, extra_feeding_len: Size) -> (r: Result<(), TsplError>)
        ensures
            sent(r, *old(self), *final(self), command_line(
                "BLINE"@,
                seq![size_text(black_line_height), size_text(extra_feeding_len)],
            )),
    {
        self.length_cmd("BLINE", black_line_height, Some(extra_feeding_len));
        assert(length_args(black_line_height, Some(extra_feeding_len))
            =~= seq![size_text(black_line_height), size_text(extra_feeding_len)]);
        Ok(())
    }

    /// This command defines the selective, extra label feeding length each form feed takes,
    /// which is used to adjust the label stop position in peel-off and cutter mode.
    pub fn offset(&mut self, offset: Size) -> (r: Result<(), TsplError>)
        ensures
            sent(r, *old(self), *final(self), command_line("OFFSET"@, seq![size_text(offset)])),
    {
        self.length_cmd("OFFSET", offset, None);
        Ok(())
    }

    /// This command defines the print speed.
    /// Available speeds in inch/sec should be checked for your printer model
    pub fn speed(&mut self, speed: &str) -> (r: Result<(), TsplError>)
        ensures
            sent(r, *old(self), *final(self), command_line("SPEED"@, seq![utf8(speed@)])),
    {
        let mut line = Line::new("SPEED");
        line.arg_str(speed);
        let ghost args = seq![utf8(speed@)];
        self.emit(line, Ghost("SPEED"@), Ghost(args));
        Ok(())
    }

    /// This command sets the printing darkness from lightest (1) to darkest (15).
    pub fn density(&mut self, density: u8) -> (r: Result<(), TsplError>)
        ensures
            if 1 <= density <= 15 {
                sent(r, *old(self), *final(self), command_line("DENSITY"@, seq![num(density as int)]))
            } else {
                refused(r, *old(self), *final(self), TsplError::Density)
            },
    {
        if !(1 <= density && density <= 15) {
            return Err(TsplError::Density);
        }
        let mut line = Line::new("DENSITY");
        line.arg_decimal(density as i64);
        let ghost args = seq![num(density as int)];
        self.emit(line, Ghost("DENSITY"@), Ghost(args));
        Ok(())
    }

    /// This command defines the printout direction and mirror image.
    pub fn direction(&mut self, reversed_direction: bool, mirrored_image: bool) -> (r: Result<(), TsplError>)
        ensures
            sent(r, *old(self), *final(self), command_line(
                "DIRECTION"@,
                seq![flag(reversed_direction), flag(mirrored_image)],
            )),
    {
        let mut line = Line::new("DIRECTION");
        line.arg_byte(if reversed_direction { 49 } else { 48 });
        line.arg_byte(if mirrored_image { 49 } else { 48 });
        let ghost args = seq![flag(reversed_direction), flag(mirrored_image)];
        self.emit(line, Ghost("DIRECTION"@), Ghost(args));
        Ok(())
    }

    /// This command defines the reference point of the label.
    pub fn reference(&mut self, x: Size, y: Size) -> (r: Result<(), TsplError>)
        ensures
            sent(r, *old(self), *final(self), command_line(
                "REFERENCE"@,
                seq![dots_arg(x, old(self).dpi()), dots_arg(y, old(self).dpi())],
            )),
    {
        self.detect_cmd("REFERENCE", Some((x, y)));
        Ok(())
    }

    /// This command moves the label's horizontal and vertical position. A positive value moves the label
    /// further from the printing direction; a negative value moves the label towards the printing direction.
    pub fn shift(&mut self, x: Option<Size>, y: Size) -> (r: Result<(), TsplError>)
        ensures
            sent(r, *old(self), *final(self), command_line(
                "SHIFT"@,
                match x {
                    Some(x) => seq![dots_arg(x, old(self).dpi()), dots_arg(y, old(self).dpi())],
                    None => seq![dots_arg(y, old(self).dpi())],
                },
            )),
    {
        let mut line = Line::new("SHIFT");
        if let Some(x) = x {
            line.arg_decimal(x.to_dots(self.resolution));
        }
        line.arg_decimal(y.to_dots(self.resolution));
        let ghost res = self.resolution;
        self.emit(
            line,
            Ghost("SHIFT"@),
            Ghost(
                match x {
                    Some(x) => seq![dots_arg(x, res), dots_arg(y, res)],
                    None => seq![dots_arg(y, res)],
                },
            ),
        );
        Ok(())
    }

    /// This command orients the keyboard for use in different countries.
    pub fn country(&mut self, country: Country) -> (r: Result<(), TsplError>)
        ensures
            sent(r, *old(self), *final(self), command_line("COUNTRY"@, seq![country.wire()])),
    {
        let mut line = Line::new("COUNTRY");
        line.arg_bytes(country.token().as_slice());
        let ghost args = seq![country.wire()];
        self.emit(line, Ghost("COUNTRY"@), Ghost(args));
        Ok(())
    }

    /// This command defines the code page of international character set.
    pub fn codepage(&mut self, codepage: Codepage) -> (r: Result<(), TsplError>)
        ensures
            sent(r, *old(self), *final(self), command_line("CODEPAGE"@, seq![tok(codepage.wire())])),
    {
        let mut line = Line::new("CODEPAGE");
        line.arg_str(codepage.token());
        let ghost args = seq![tok(codepage.wire())];
        self.emit(line, Ghost("CODEPAGE"@), Ghost(args));
        Ok(())
    }

    fn bare_cmd(&mut self, op: &str)
        ensures
            final(self).written() == old(self).written() + command_line(op@, seq![]),
            final(self).dpi() == old(self).dpi(),
    {
        let line = Line::new(op);
        let ghost args = seq![];
        self.emit(line, Ghost(op@), Ghost(args));
    }

    /// This command clears the image buffer.
    pub fn cls(&mut self) -> (r: Result<(), TsplError>)
        ensures
            sent(r, *old(self), *final(self), command_line("CLS"@, seq![])),
    {
        self.bare_cmd("CLS");
        Ok(())
    }

    /// This command feeds label to the beginning of next label.
    pub fn formfeed(&mut self) -> (r: Result<(), TsplError>)
        ensures
            sent(r, *old(self), *final(self), command_line("FORMFEED"@, seq![])),
    {
        self.bare_cmd("FORMFEED");
        Ok(())
    }

    /// This command will feed label until the internal sensor has determined the origin.
    /// Size and gap of the label should be defined before using this command.
    pub fn home(&mut self) -> (r: Result<(), TsplError>)
        ensures
            sent(r, *old(self), *final(self), command_line("HOME"@, seq![])),
    {
        self.bare_cmd("HOME");
        Ok(())
    }

    /// This command activates the cutter to immediately cut the labels without back feeding the label.
    pub fn cut(&mut self) -> (r: Result<(), TsplError>)
        ensures
            sent(r, *old(self), *final(self), command_line("CUT"@, seq![])),
    {
        self.bare_cmd("CUT");
        Ok(())
    }

    /// Let the printer wait until process of commands (before EOJ) be finished then go on the next command.
    pub fn eoj(&mut self) -> (r: Result<(), TsplError>)
        ensures
            sent(r, *old(self), *final(self), command_line("EOJ"@, seq![])),
    {
        self.bare_cmd("EOJ");
        Ok(())
    }

    /// This command can restore printer settings to defaults.
    pub fn initial_printer(&mut self) -> (r: Result<(), TsplError>)
        ensures
            sent(r, *old(self), *final(self), command_line("INITIALPRINTER"@, seq![])),
    {
        self.bare_cmd("INITIALPRINTER");
        Ok(())
    }

    /// This command prints the label format currently stored in the image buffer,
    /// `sets` times, each set `copies` times. Both counts must be in 1..=999999999.
    pub fn print(&mut self, sets: u32, copies: Option<u32>) -> (r: Result<(), TsplError>)
        ensures
            if !(1 <= sets <= 999_999_999) {
                refused(r, *old(self), *final(self), TsplError::Sets)
            } else {
                match copies {
                    Some(c) => if 1 <= c <= 999_999_999 {
                        sent(r, *old(self), *final(self), command_line(
                            "PRINT"@,
                            seq![num(sets as int), num(c as int)],
                        ))
                    } else {
                        refused(r, *old(self), *final(self), TsplError::Copies)
                    },
                    None => sent(r, *old(self), *final(self), command_line("PRINT"@, seq![num(sets as int)])),
                }
            },
    {
        if !(1 <= sets && sets <= 999_999_999) {
            return Err(TsplError::Sets);
        }
        let mut line = Line::new("PRINT");
        line.arg_decimal(sets as i64);
        if let Some(c) = copies {
            if !(1 <= c && c <= 999_999_999) {
                return Err(TsplError::Copies);
            }
            line.arg_decimal(c as i64);
        }
        let ghost args = match copies {
            Some(c) => seq![num(sets as int), num(c as int)],
            None => seq![num(sets as int)],
        };
        self.emit(line, Ghost("PRINT"@), Ghost(args));
        Ok(())
    }

    /// This command controls the sound frequency of the beeper. There are 10 levels of sounds, from 0 to 9.
    /// The timing control can be set by the "interval" parameter, in range 1..=4095
    pub fn sound(&mut self, level: u8, interval: u16) -> (r: Result<(), TsplError>)
        ensures
            if level <= 9 && 1 <= interval <= 4095 {
                sent(r, *old(self), *final(self), command_line(
                    "SOUND"@,
                    seq![num(level as int), num(interval as int)],
                ))
            } else {
                refused(r, *old(self), *final(self), TsplError::Sound)
            },
    {
        if !(level <= 9 && 1 <= interval && interval <= 4095) {
            return Err(TsplError::Sound);
        }
        let mut line = Line::new("SOUND");
        line.arg_decimal(level as i64);
        line.arg_decimal(interval as i64);
        let ghost args = seq![num(level as int), num(interval as int)];
        self.emit(line, Ghost("SOUND"@), Ghost(args));
        Ok(())
    }

    fn feed_cmd(&mut self, op: &str, length: Size) -> (r: Result<(), TsplError>)
        ensures
            if 0 <= dots_of(length, old(self).dpi()) <= 9999 {
                sent(r, *old(self), *final(self), command_line(op@, seq![dots_arg(length, old(self).dpi())]))
            } else {
                refused(r, *old(self), *final(self), TsplError::FeedLength)
            },
    {
        let dots = length.to_dots(self.resolution);
        if !(0 <= dots && dots <= 9999) {
            return Err(TsplError::FeedLength);
        }
        let mut line = Line::new(op);
        line.arg_decimal(dots);
        let ghost args = seq![dots_arg(length, self.resolution)];
        self.emit(line, Ghost(op@), Ghost(args));
        Ok(())
    }

    /// This command feeds label with the specified length, which must come to
    /// 0..=9999 dots.
    pub fn feed(&mut self, feed: Size) -> (r: Result<(), TsplError>)
        ensures
            if 0 <= dots_of(feed, old(self).dpi()) <= 9999 {
                sent(r, *old(self), *final(self), command_line("FEED"@, seq![dots_arg(feed, old(self).dpi())]))
            } else {
                refused(r, *old(self), *final(self), TsplError::FeedLength)
            },
    {
        self.feed_cmd("FEED", feed)
    }

    /// This command feeds the label in reverse, by a length that must come to
    /// 0..=9999 dots. For TSPL printers only.
    pub fn backup(&mut self, feed: Size) -> (r: Result<(), TsplError>)
        ensures
            if 0 <= dots_of(feed, old(self).dpi()) <= 9999 {
                sent(r, *old(self), *final(self), command_line("BACKUP"@, seq![dots_arg(feed, old(self).dpi())]))
            } else {
                refused(r, *old(self), *final(self), TsplError::FeedLength)
            },
    {
        self.feed_cmd("BACKUP", feed)
    }

    /// This command feeds the label in reverse, by a length that must come to
    /// 0..=9999 dots. For TSPL2 printers only.
    pub fn backfeed(&mut self, feed: Size) -> (r: Result<(), TsplError>)
        ensures
            if 0 <= dots_of(feed, old(self).dpi()) <= 9999 {
                sent(r, *old(self), *final(self), command_line("BACKFEED"@, seq![dots_arg(feed, old(self).dpi())]))
            } else {
                refused(r, *old(self), *final(self), TsplError::FeedLength)
            },
    {
        self.feed_cmd("BACKFEED", feed)
    }

    /// This command stops label feeding and makes the red LED flash if the printer
    /// does not locate gap after feeding the length of one label plus one preset value.
    ///
    /// `n` is the maximum length for sensor detecting; `minpaper_maxgap` the
    /// minimum length of paper and the maximum length of gap.
    pub fn limit_feed(&mut self, n: Size, minpaper_maxgap: Option<(Size, Size)>) -> (r: Result<(), TsplError>)
        ensures
            sent(r, *old(self), *final(self), command_line(
                "LIMITFEED"@,
                match minpaper_maxgap {
                    Some((x, y)) => seq![size_text(n), size_text(x), size_text(y)],
                    None => seq![size_text(n)],
                },
            )),
    {
        let mut line = Line::new("LIMITFEED");
        line.arg_bytes(n.text().as_slice());
        if let Some((x, y)) = minpaper_maxgap {
            line.arg_bytes(x.text().as_slice());
            line.arg_bytes(y.text().as_slice());
        }
        let ghost args = match minpaper_maxgap {
            Some((x, y)) => seq![size_text(n), size_text(x), size_text(y)],
            None => seq![size_text(n)],
        };
        self.emit(line, Ghost("LIMITFEED"@), Ghost(args));
        Ok(())
    }

    /// At this command, the printer will print out the printer information.
    pub fn selftest(&mut self, test_kind: Selftest) -> (r: Result<(), TsplError>)
        ensures
            sent(r, *old(self), *final(self), command_line("SELFTEST"@, seq![tok(test_kind.wire())])),
    {
        let mut line = Line::new("SELFTEST");
        line.arg_str(test_kind.token());
        let ghost args = seq![tok(test_kind.wire())];
        self.emit(line, Ghost("SELFTEST"@), Ghost(args));
        Ok(())
    }

    /// Let the printer wait `millis` milliseconds then go on next command.
    pub fn delay(&mut self, millis: u128) -> (r: Result<(), TsplError>)
        ensures
            sent(r, *old(self), *final(self), command_line("DELAY"@, seq![num(millis as int)])),
    {
        let mut line = Line::new("DELAY");
        line.arg_digits(millis);
        let ghost args = seq![num(millis as int)];
        self.emit(line, Ghost("DELAY"@), Ghost(args));
        Ok(())
    }

    /// Showing the image buffer on the LCD panel is not supported: always
    /// fails.
    pub fn display(&self) -> (r: Result<(), TsplError>)
        ensures
            r == Err::<(), TsplError>(TsplError::Unimplemented),
    {
        Err(TsplError::Unimplemented)
    }

    /// Designing a menu on the printer is not supported: always fails.
    pub fn menu(&self) -> (r: Result<(), TsplError>)
        ensures
            r == Err::<(), TsplError>(TsplError::Unimplemented),
    {
        Err(TsplError::Unimplemented)
    }

    /// This command draws a bar on the label format.
    pub fn bar(&mut self, x_upper_left: Size, y_upper_left: Size, width: Size, height: Size) -> (r: Result<(), TsplError>)
        ensures
            sent(r, *old(self), *final(self), command_line(
                "BAR"@,
                seq![dots_arg(x_upper_left, old(self).dpi()), dots_arg(y_upper_left, old(self).dpi()), dots_arg(width, old(self).dpi()), dots_arg(height, old(self).dpi())],
            )),
    {
        let mut line = Line::new("BAR");
        line.arg_decimal(x_upper_left.to_dots(self.resolution));
        line.arg_decimal(y_upper_left.to_dots(self.resolution));
        line.arg_decimal(width.to_dots(self.resolution));
        line.arg_decimal(height.to_dots(self.resolution));
        let ghost res = self.resolution;
        let ghost args = seq![dots_arg(x_upper_left, res), dots_arg(y_upper_left, res), dots_arg(width, res), dots_arg(height, res)];
        self.emit(line, Ghost("BAR"@), Ghost(args));
        Ok(())
    }

    /// This command draws a circle on the label.
    pub fn circle(&mut self, x_start: Size, y_start: Size, diameter: Size, thickness: Size) -> (r: Result<(), TsplError>)
        ensures
            sent(r, *old(self), *final(self), command_line(
                "CIRCLE"@,
                seq![dots_arg(x_start, old(self).dpi()), dots_arg(y_start, old(self).dpi()), dots_arg(diameter, old(self).dpi()), dots_arg(thickness, old(self).dpi())],
            )),
    {
        let mut line = Line::new("CIRCLE");
        line.arg_decimal(x_start.to_dots(self.resolution));
        line.arg_decimal(y_start.to_dots(self.resolution));
        line.arg_decimal(diameter.to_dots(self.resolution));
        line.arg_decimal(thickness.to_dots(self.resolution));
        let ghost res = self.resolution;
        let ghost args = seq![dots_arg(x_start, res), dots_arg(y_start, res), dots_arg(diameter, res), dots_arg(thickness, res)];
        self.emit(line, Ghost("CIRCLE"@), Ghost(args));
        Ok(())
    }

    /// This command draws an ellipse on the label.
    pub fn ellipse(&mut self, x_upper_left: Size, y_upper_left: Size, width: Size, height: Size, thickness: Size) -> (r: Result<(), TsplError>)
        ensures
            sent(r, *old(self), *final(self), command_line(
                "ELLIPSE"@,
                seq![dots_arg(x_upper_left, old(self).dpi()), dots_arg(y_upper_left, old(self).dpi()), dots_arg(width, old(self).dpi()), dots_arg(height, old(self).dpi()), dots_arg(thickness, old(self).dpi())],
            )),
    {
        let mut line = Line::new("ELLIPSE");
        line.arg_decimal(x_upper_left.to_dots(self.resolution));
        line.arg_decimal(y_upper_left.to_dots(self.resolution));
        line.arg_decimal(width.to_dots(self.resolution));
        line.arg_decimal(height.to_dots(self.resolution));
        line.arg_decimal(thickness.to_dots(self.resolution));
        let ghost res = self.resolution;
        let ghost args = seq![dots_arg(x_upper_left, res), dots_arg(y_upper_left, res), dots_arg(width, res), dots_arg(height, res), dots_arg(thickness, res)];
        self.emit(line, Ghost("ELLIPSE"@), Ghost(args));
        Ok(())
    }

    /// This command clears a specified region in the image buffer.
    pub fn erase(&mut self, x: Size, y: Size, width: Size, height: Size) -> (r: Result<(), TsplError>)
        ensures
            sent(r, *old(self), *final(self), command_line(
                "ERASE"@,
                seq![dots_arg(x, old(self).dpi()), dots_arg(y, old(self).dpi()), dots_arg(width, old(self).dpi()), dots_arg(height, old(self).dpi())],
            )),
    {
        let mut line = Line::new("ERASE");
        line.arg_decimal(x.to_dots(self.resolution));
        line.arg_decimal(y.to_dots(self.resolution));
        line.arg_decimal(width.to_dots(self.resolution));
        line.arg_decimal(height.to_dots(self.resolution));
        let ghost res = self.resolution;
        let ghost args = seq![dots_arg(x, res), dots_arg(y, res), dots_arg(width, res), dots_arg(height, res)];
        self.emit(line, Ghost("ERASE"@), Ghost(args));
        Ok(())
    }

    /// This command reverses a region in image buffer.
    pub fn reverse(&mut self, x_start: Size, y_start: Size, width: Size, height: Size) -> (r: Result<(), TsplError>)
        ensures
            sent(r, *old(self), *final(self), command_line(
                "REVERSE"@,
                seq![dots_arg(x_start, old(self).dpi()), dots_arg(y_start, old(self).dpi()), dots_arg(width, old(self).dpi()), dots_arg(height, old(self).dpi())],
            )),
    {
        let mut line = Line::new("REVERSE");
        line.arg_decimal(x_start.to_dots(self.resolution));
        line.arg_decimal(y_start.to_dots(self.resolution));
        line.arg_decimal(width.to_dots(self.resolution));
        line.arg_decimal(height.to_dots(self.resolution));
        let ghost res = self.resolution;
        let ghost args = seq![dots_arg(x_start, res), dots_arg(y_start, res), dots_arg(width, res), dots_arg(height, res)];
        self.emit(line, Ghost("REVERSE"@), Ghost(args));
        Ok(())
    }

    /// This command is used to draw a diagonal.
    pub fn diagonal(&mut self, x_start: Size, y_start: Size, x_end: Size, y_end: Size, thickness: Size) -> (r: Result<(), TsplError>)
        ensures
            sent(r, *old(self), *final(self), command_line(
                "DIAGONAL"@,
                seq![dots_arg(x_start, old(self).dpi()), dots_arg(y_start, old(self).dpi()), dots_arg(x_end, old(self).dpi()), dots_arg(y_end, old(self).dpi()), dots_arg(thickness, old(self).dpi())],
            )),
    {
        let mut line = Line::new("DIAGONAL");
        line.arg_decimal(x_start.to_dots(self.resolution));
        line.arg_decimal(y_start.to_dots(self.resolution));
        line.arg_decimal(x_end.to_dots(self.resolution));
        line.arg_decimal(y_end.to_dots(self.resolution));
        line.arg_decimal(thickness.to_dots(self.resolution));
        let ghost res = self.resolution;
        let ghost args = seq![dots_arg(x_start, res), dots_arg(y_start, res), dots_arg(x_end, res), dots_arg(y_end, res), dots_arg(thickness, res)];
        self.emit(line, Ghost("DIAGONAL"@), Ghost(args));
        Ok(())
    }

    /// This command prints 1D barcodes.
    pub fn barcode(
        &mut self,
        x: Size,
        y: Size,
        code_type: Barcode,
        height: Size,
        human_readable: HumanReadable,
        rotate: Rotation,
        narrow_wide: NarrowWide,
        alignment: Option<Alignment>,
        content: &str,
    ) -> (r: Result<(), TsplError>)
        ensures
            sent(r, *old(self), *final(self), command_line(
                "BARCODE"@,
                barcode_args(old(self).dpi(), x, y, code_type, height, human_readable, rotate,
                    narrow_wide, alignment, content@),
            )),
    {
        let mut line = Line::new("BARCODE");
        line.arg_decimal(x.to_dots(self.resolution));
        line.arg_decimal(y.to_dots(self.resolution));
        line.arg_quoted(code_type.token(), false);
        line.arg_decimal(height.to_dots(self.resolution));
        line.arg_str(human_readable.token());
        line.arg_str(rotate.token());
        line.arg_str(narrow_wide.token());
        if let Some(a) = alignment {
            line.arg_str(a.token());
        }
        line.arg_quoted(content, true);
        let ghost args = barcode_args(self.resolution, x, y, code_type, height, human_readable,
            rotate, narrow_wide, alignment, content@);
        self.emit(line, Ghost("BARCODE"@), Ghost(args));
        Ok(())
    }

    /// This command draws TLC39, TCIF Linked Bar Code 3 of 9, barcode.
    pub fn tlc39(
        &mut self,
        x: Size,
        y: Size,
        rotate: Rotation,
        height: Option<Size>,
        narrow: Option<Size>,
        wide: Option<Size>,
        cellwidth: Option<Size>,
        cellheight: Option<Size>,
        eci_number: &str,
        serial_number: &str,
        additional_data: &str,
    ) -> (r: Result<(), TsplError>)
        ensures
            sent(r, *old(self), *final(self), command_line(
                "TLC39"@,
                tlc39_args(old(self).dpi(), x, y, rotate, height, narrow, wide, cellwidth,
                    cellheight, eci_number@, serial_number@, additional_data@),
            )),
    {
        let res = self.resolution;
        let mut line = Line::new("TLC39");
        line.arg_decimal(x.to_dots(res));
        line.arg_decimal(y.to_dots(res));
        line.arg_str(rotate.token());
        line.arg_decimal(pick(height, 40).to_dots(res));
        line.arg_decimal(pick(narrow, 2).to_dots(res));
        line.arg_decimal(pick(wide, 4).to_dots(res));
        line.arg_decimal(pick(cellwidth, 2).to_dots(res));
        line.arg_decimal(pick(cellheight, 4).to_dots(res));
        line.begin();
        line.put_byte(32);
        line.put_byte(34);
        line.put(eci_number.as_bytes());
        line.put_byte(44);
        line.put(serial_number.as_bytes());
        line.put_byte(44);
        line.put(additional_data.as_bytes());
        line.put_byte(34);
        let ghost args = tlc39_args(res, x, y, rotate, height, narrow, wide, cellwidth,
            cellheight, eci_number@, serial_number@, additional_data@);
        assert(line.args().last() =~= args.last());
        self.emit(line, Ghost("TLC39"@), Ghost(args));
        Ok(())
    }

    /// This command draws bitmap images (as opposed to BMP graphic files).
    /// The bitmap bytes follow the header unchanged.
    pub fn bitmap(
        &mut self,
        x: Size,
        y: Size,
        width_bytes: u16,
        height_dots: u16,
        mode: BitmapMode,
        bitmap_data: Vec<u8>,
    ) -> (r: Result<(), TsplError>)
        ensures
            sent(r, *old(self), *final(self), command_line(
                "BITMAP"@,
                seq![
                    dots_arg(x, old(self).dpi()),
                    dots_arg(y, old(self).dpi()),
                    num(width_bytes as int),
                    num(height_dots as int),
                    tok(mode.wire()),
                    bitmap_data@,
                ],
            )),
    {
        let mut line = Line::new("BITMAP");
        line.arg_decimal(x.to_dots(self.resolution));
        line.arg_decimal(y.to_dots(self.resolution));
        line.arg_decimal(width_bytes as i64);
        line.arg_decimal(height_dots as i64);
        line.arg_str(mode.token());
        line.arg_bytes(bitmap_data.as_slice());
        let ghost res = self.resolution;
        let ghost args = seq![
            dots_arg(x, res),
            dots_arg(y, res),
            num(width_bytes as int),
            num(height_dots as int),
            tok(mode.wire()),
            bitmap_data@,
        ];
        self.emit(line, Ghost("BITMAP"@), Ghost(args));
        Ok(())
    }

    /// This command draws rectangles on the label; the corner radius is 0
    /// dots when absent.
    pub fn rectangle(
        &mut self,
        x_start: Size,
        y_start: Size,
        x_end: Size,
        y_end: Size,
        thickness: Size,
        radius: Option<Size>,
    ) -> (r: Result<(), TsplError>)
        ensures
            sent(r, *old(self), *final(self), command_line(
                "BOX"@,
                seq![
                    dots_arg(x_start, old(self).dpi()),
                    dots_arg(y_start, old(self).dpi()),
                    dots_arg(x_end, old(self).dpi()),
                    dots_arg(y_end, old(self).dpi()),
                    dots_arg(thickness, old(self).dpi()),
                    dots_arg(or_dots(radius, 0), old(self).dpi()),
                ],
            )),
    {
        let res = self.resolution;
        let mut line = Line::new("BOX");
        line.arg_decimal(x_start.to_dots(res));
        line.arg_decimal(y_start.to_dots(res));
        line.arg_decimal(x_end.to_dots(res));
        line.arg_decimal(y_end.to_dots(res));
        line.arg_decimal(thickness.to_dots(res));
        line.arg_decimal(pick(radius, 0).to_dots(res));
        let ghost args = seq![
            dots_arg(x_start, res),
            dots_arg(y_start, res),
            dots_arg(x_end, res),
            dots_arg(y_end, res),
            dots_arg(thickness, res),
            dots_arg(or_dots(radius, 0), res),
        ];
        self.emit(line, Ghost("BOX"@), Ghost(args));
        Ok(())
    }

    /// This command draws CODABLOCK F mode barcode; row height and module
    /// width are 8 dots when absent.
    pub fn codablock(
        &mut self,
        x: Size,
        y: Size,
        rotate: Rotation,
        row_height: Option<Size>,
        module_width: Option<Size>,
        content: &str,
    ) -> (r: Result<(), TsplError>)
        ensures
            sent(r, *old(self), *final(self), command_line(
                "CODABLOCK"@,
                seq![
                    dots_arg(x, old(self).dpi()),
                    dots_arg(y, old(self).dpi()),
                    tok(rotate.wire()),
                    dots_arg(or_dots(row_height, 8), old(self).dpi()),
                    dots_arg(or_dots(module_width, 8), old(self).dpi()),
                    quoted(utf8(content@)),
                ],
            )),
    {
        let res = self.resolution;
        let mut line = Line::new("CODABLOCK");
        line.arg_decimal(x.to_dots(res));
        line.arg_decimal(y.to_dots(res));
        line.arg_str(rotate.token());
        line.arg_decimal(pick(row_height, 8).to_dots(res));
        line.arg_decimal(pick(module_width, 8).to_dots(res));
        line.arg_quoted(content, false);
        let ghost args = seq![
            dots_arg(x, res),
            dots_arg(y, res),
            tok(rotate.wire()),
            dots_arg(or_dots(row_height, 8), res),
            dots_arg(or_dots(module_width, 8), res),
            quoted(utf8(content@)),
        ];
        self.emit(line, Ghost("CODABLOCK"@), Ghost(args));
        Ok(())
    }

    /// This command defines a DataMatrix 2D bar code. Currently, only ECC200 error correction is supported.
    pub fn data_matrix(&mut self, x: Size, y: Size, width: Size, height: Size, content: &str) -> (r: Result<(), TsplError>)
        ensures
            sent(r, *old(self), *final(self), command_line(
                "DMATRIX"@,
                seq![
                    dots_arg(x, old(self).dpi()),
                    dots_arg(y, old(self).dpi()),
                    dots_arg(width, old(self).dpi()),
                    dots_arg(height, old(self).dpi()),
                    spaced(quoted(utf8(content@))),
                ],
            )),
    {
        let res = self.resolution;
        let mut line = Line::new("DMATRIX");
        line.arg_decimal(x.to_dots(res));
        line.arg_decimal(y.to_dots(res));
        line.arg_decimal(width.to_dots(res));
        line.arg_decimal(height.to_dots(res));
        line.arg_quoted(content, true);
        let ghost args = seq![
            dots_arg(x, res),
            dots_arg(y, res),
            dots_arg(width, res),
            dots_arg(height, res),
            spaced(quoted(utf8(content@))),
        ];
        self.emit(line, Ghost("DMATRIX"@), Ghost(args));
        Ok(())
    }

    /// This command defines a PDF417 2D bar code.
    pub fn pdf417(
        &mut self,
        x_start: Size,
        y_start: Size,
        width: Size,
        height: Size,
        rotate: Rotation,
        content: &str,
    ) -> (r: Result<(), TsplError>)
        ensures
            sent(r, *old(self), *final(self), command_line(
                "PDF417"@,
                seq![
                    dots_arg(x_start, old(self).dpi()),
                    dots_arg(y_start, old(self).dpi()),
                    dots_arg(width, old(self).dpi()),
                    dots_arg(height, old(self).dpi()),
                    tok(rotate.wire()),
                    quoted(utf8(content@)),
                ],
            )),
    {
        let res = self.resolution;
        let mut line = Line::new("PDF417");
        line.arg_decimal(x_start.to_dots(res));
        line.arg_decimal(y_start.to_dots(res));
        line.arg_decimal(width.to_dots(res));
        line.arg_decimal(height.to_dots(res));
        line.arg_str(rotate.token());
        line.arg_quoted(content, false);
        let ghost args = seq![
            dots_arg(x_start, res),
            dots_arg(y_start, res),
            dots_arg(width, res),
            dots_arg(height, res),
            tok(rotate.wire()),
            quoted(utf8(content@)),
        ];
        self.emit(line, Ghost("PDF417"@), Ghost(args));
        Ok(())
    }

    /// This command defines a AZTEC 2D bar code. The symbol size must be in
    /// 1..=20, the error control at most 300 and the number of symbols in
    /// 1..=26, checked in that order.
    pub fn aztec(
        &mut self,
        x_start: Size,
        y_start: Size,
        rotate: Rotation,
        size: u8,
        ecp: u16,
        flg: bool,
        menu: bool,
        multi: u8,
        reversed: bool,
        content: &str,
    ) -> (r: Result<(), TsplError>)
        ensures
            if !(1 <= size <= 20) {
                refused(r, *old(self), *final(self), TsplError::AztecSize)
            } else if ecp > 300 {
                refused(r, *old(self), *final(self), TsplError::AztecErrorControl)
            } else if !(1 <= multi <= 26) {
                refused(r, *old(self), *final(self), TsplError::AztecSymbols)
            } else {
                sent(r, *old(self), *final(self), command_line(
                    "AZTEC"@,
                    aztec_args(old(self).dpi(), x_start, y_start, rotate, size, ecp, flg, menu,
                        multi, reversed, content@),
                ))
            },
    {
        if !(1 <= size && size <= 20) {
            return Err(TsplError::AztecSize);
        }
        if ecp > 300 {
            return Err(TsplError::AztecErrorControl);
        }
        if !(1 <= multi && multi <= 26) {
            return Err(TsplError::AztecSymbols);
        }
        let res = self.resolution;
        let mut line = Line::new("AZTEC");
        line.arg_decimal(x_start.to_dots(res));
        line.arg_decimal(y_start.to_dots(res));
        line.arg_str(rotate.token());
        line.arg_decimal(size as i64);
        line.arg_decimal(ecp as i64);
        line.arg_byte(if flg { 49 } else { 48 });
        line.arg_byte(if menu { 49 } else { 48 });
        line.arg_decimal(multi as i64);
        line.arg_byte(if reversed { 49 } else { 48 });
        line.arg_digits(content.as_bytes().len() as u128);
        line.arg_str(content);
        let ghost args = aztec_args(res, x_start, y_start, rotate, size, ecp, flg, menu, multi,
            reversed, content@);
        self.emit(line, Ghost("AZTEC"@), Ghost(args));
        Ok(())
    }

    /// This command defines a Micro PDF 417 bar code. Module width and height
    /// are 1 and 10 dots when absent; a column count outside 1..=4, or none,
    /// is sent as 0.
    pub fn mpdf417(
        &mut self,
        x_start: Size,
        y_start: Size,
        rotate: Rotation,
        module_width: Option<Size>,
        module_height: Option<Size>,
        col_num: Option<usize>,
        content: &str,
    ) -> (r: Result<(), TsplError>)
        ensures
            sent(r, *old(self), *final(self), command_line(
                "MPDF417"@,
                seq![
                    dots_arg(x_start, old(self).dpi()),
                    dots_arg(y_start, old(self).dpi()),
                    tok(rotate.wire()),
                    dots_arg(or_dots(module_width, 1), old(self).dpi()),
                    dots_arg(or_dots(module_height, 10), old(self).dpi()),
                    num(mpdf_columns(col_num)),
                    spaced(quoted(utf8(content@))),
                ],
            )),
    {
        let col: usize = match col_num {
            Some(c) => if 1 <= c && c <= 4 {
                c
            } else {
                0
            },
            None => 0,
        };
        let res = self.resolution;
        let mut line = Line::new("MPDF417");
        line.arg_decimal(x_start.to_dots(res));
        line.arg_decimal(y_start.to_dots(res));
        line.arg_str(rotate.token());
        line.arg_decimal(pick(module_width, 1).to_dots(res));
        line.arg_decimal(pick(module_height, 10).to_dots(res));
        line.arg_decimal(col as i64);
        line.arg_quoted(content, true);
        let ghost args = seq![
            dots_arg(x_start, res),
            dots_arg(y_start, res),
            tok(rotate.wire()),
            dots_arg(or_dots(module_width, 1), res),
            dots_arg(or_dots(module_height, 10), res),
            num(mpdf_columns(col_num)),
            spaced(quoted(utf8(content@))),
        ];
        self.emit(line, Ghost("MPDF417"@), Ghost(args));
        Ok(())
    }

    /// This command prints QR code. The error correction level 0..=30 maps to
    /// a grade letter; the cell width must be in 1..=10.
    pub fn qrcode(
        &mut self,
        x_upper_left: Size,
        y_upper_left: Size,
        ecc_level: u8,
        cellwidth_dot: u8,
        rotate: Rotation,
        justification: Option<QrCodeJustification>,
        content: &str,
    ) -> (r: Result<(), TsplError>)
        ensures
            if 1 <= cellwidth_dot <= 10 {
                sent(r, *old(self), *final(self), command_line(
                    "QRCODE"@,
                    qrcode_args(old(self).dpi(), x_upper_left, y_upper_left, ecc_level,
                        cellwidth_dot, rotate, justification, content@),
                ))
            } else {
                refused(r, *old(self), *final(self), TsplError::CellWidth)
            },
    {
        let grade: u8 = if ecc_level <= 6 {
            76
        } else if ecc_level <= 14 {
            77
        } else if ecc_level <= 24 {
            81
        } else {
            72
        };
        if !(1 <= cellwidth_dot && cellwidth_dot <= 10) {
            return Err(TsplError::CellWidth);
        }
        let res = self.resolution;
        let mut line = Line::new("QRCODE");
        line.arg_decimal(x_upper_left.to_dots(res));
        line.arg_decimal(y_upper_left.to_dots(res));
        line.arg_byte(grade);
        line.arg_decimal(cellwidth_dot as i64);
        line.arg_byte(65);
        line.arg_str(rotate.token());
        if let Some(j) = justification {
            line.arg_str(j.token());
        }
        line.arg_quoted(content, false);
        let ghost args = qrcode_args(res, x_upper_left, y_upper_left, ecc_level, cellwidth_dot,
            rotate, justification, content@);
        self.emit(line, Ghost("QRCODE"@), Ghost(args));
        Ok(())
    }

    /// This command prints text; both multiplications must be in 1..=10.
    pub fn text(
        &mut self,
        x: Size,
        y: Size,
        font: Font,
        rotate: Rotation,
        multiply_x: u8,
        multiply_y: u8,
        alignment: Option<Alignment>,
        content: &str,
    ) -> (r: Result<(), TsplError>)
        ensures
            if 1 <= multiply_x <= 10 && 1 <= multiply_y <= 10 {
                sent(r, *old(self), *final(self), command_line(
                    "TEXT"@,
                    text_args(old(self).dpi(), x, y, font, rotate, multiply_x, multiply_y,
                        alignment, content@),
                ))
            } else {
                refused(r, *old(self), *final(self), TsplError::Multiply)
            },
    {
        if !(1 <= multiply_x && multiply_x <= 10) || !(1 <= multiply_y && multiply_y <= 10) {
            return Err(TsplError::Multiply);
        }
        let res = self.resolution;
        let mut line = Line::new("TEXT");
        line.arg_decimal(x.to_dots(res));
        line.arg_decimal(y.to_dots(res));
        line.arg_quoted(font.token(), false);
        line.arg_str(rotate.token());
        line.arg_decimal(multiply_x as i64);
        line.arg_decimal(multiply_y as i64);
        if let Some(a) = alignment {
            line.arg_str(a.token());
        }
        line.arg_quoted(content, true);
        let ghost args = text_args(res, x, y, font, rotate, multiply_x, multiply_y, alignment,
            content@);
        self.emit(line, Ghost("TEXT"@), Ghost(args));
        Ok(())
    }

    /// This command prints a block of text within the given width and height.
    /// Both multiplications must be in 1..=10 and the content at most 4096
    /// bytes long, checked in that order.
    #[verifier::rlimit(30)]
    pub fn block(
        &mut self,
        x: Size,
        y: Size,
        width: Size,
        height: Size,
        font: Font,
        rotate: Rotation,
        multiply_x: u8,
        multiply_y: u8,
        space: Option<Size>,
        alignment: Option<Alignment>,
        fit: Option<bool>,
        content: &str,
    ) -> (r: Result<(), TsplError>)
        ensures
            if !(1 <= multiply_x <= 10 && 1 <= multiply_y <= 10) {
                refused(r, *old(self), *final(self), TsplError::Multiply)
            } else if utf8(content@).len() > 4096 {
                refused(r, *old(self), *final(self), TsplError::ContentLength)
            } else {
                sent(r, *old(self), *final(self), command_line(
                    "TEXT"@,
                    block_args(old(self).dpi(), x, y, width, height, font, rotate, multiply_x,
                        multiply_y, space, alignment, fit, content@),
                ))
            },
    {
        if !(1 <= multiply_x && multiply_x <= 10) || !(1 <= multiply_y && multiply_y <= 10) {
            return Err(TsplError::Multiply);
        }
        if content.as_bytes().len() > 4096 {
            return Err(TsplError::ContentLength);
        }
        let res = self.resolution;
        let mut line = Line::new("TEXT");
        line.arg_decimal(x.to_dots(res));
        line.arg_decimal(y.to_dots(res));
        line.arg_decimal(width.to_dots(res));
        line.arg_decimal(height.to_dots(res));
        line.arg_quoted(font.token(), false);
        line.arg_str(rotate.token());
        line.arg_decimal(multiply_x as i64);
        line.arg_decimal(multiply_y as i64);
        if let Some(sp) = space {
            line.arg_decimal(sp.to_dots(res));
        }
        if let Some(al) = alignment {
            line.arg_str(al.token());
        }
        if let Some(f) = fit {
            line.arg_byte(if f { 49 } else { 48 });
        }
        line.arg_quoted(content, false);
        let ghost args = block_args(res, x, y, width, height, font, rotate, multiply_x,
            multiply_y, space, alignment, fit, content@);
        self.emit(line, Ghost("TEXT"@), Ghost(args));
        Ok(())
    }

    /// This command is used to draw a RSS bar code on the label format.
    ///
    /// The module width, converted to dots, must be in 1..=10 and the
    /// separator height 1 or 2. RSS Expanded needs a segment width in 2..=22;
    /// the UCC/EAN-128 types need a linear height in 1..=500.
    pub fn rss(
        &mut self,
        x_upper_left: Size,
        y_upper_left: Size,
        rss_type: RssType,
        rotate: Rotation,
        module_width: Size,
        separator_height: usize,
        seg_width: Option<usize>,
        lin_height: Option<usize>,
        content: &str,
    ) -> (r: Result<(), TsplError>)
        ensures
            ({
                let res = old(self).dpi();
                let pix = dots_of(module_width, res);
                let args = |extra: Option<usize>|
                    rss_args(res, x_upper_left, y_upper_left, rss_type, rotate, module_width,
                        separator_height, extra, content@);
                if !(1 <= pix <= 10) {
                    refused(r, *old(self), *final(self), TsplError::ModuleWidth)
                } else if separator_height != 1 && separator_height != 2 {
                    refused(r, *old(self), *final(self), TsplError::SeparatorHeight)
                } else if rss_type == RssType::RssExp {
                    match seg_width {
                        None => refused(r, *old(self), *final(self), TsplError::MissingSegmentWidth),
                        Some(w) => if 2 <= w <= 22 {
                            sent(r, *old(self), *final(self), command_line("RSS"@, args(Some(w))))
                        } else {
                            refused(r, *old(self), *final(self), TsplError::SegmentWidth)
                        },
                    }
                } else if rss_type == RssType::Ucc128Cca || rss_type == RssType::Ucc128Ccc {
                    match lin_height {
                        None => refused(r, *old(self), *final(self), TsplError::MissingLinearHeight),
                        Some(h) => if 1 <= h <= 500 {
                            sent(r, *old(self), *final(self), command_line("RSS"@, args(Some(h))))
                        } else {
                            refused(r, *old(self), *final(self), TsplError::LinearHeight)
                        },
                    }
                } else {
                    sent(r, *old(self), *final(self), command_line("RSS"@, args(None)))
                }
            }),
    {
        let pix_mult = module_width.to_dots(self.resolution);
        if !(1 <= pix_mult && pix_mult <= 10) {
            return Err(TsplError::ModuleWidth);
        }
        if separator_height != 1 && separator_height != 2 {
            return Err(TsplError::SeparatorHeight);
        }
        let extra: Option<usize> = match rss_type {
            RssType::RssExp => match seg_width {
                None => {
                    return Err(TsplError::MissingSegmentWidth);
                },
                Some(w) => {
                    if !(2 <= w && w <= 22) {
                        return Err(TsplError::SegmentWidth);
                    }
                    Some(w)
                },
            },
            RssType::Ucc128Cca | RssType::Ucc128Ccc => match lin_height {
                None => {
                    return Err(TsplError::MissingLinearHeight);
                },
                Some(h) => {
                    if !(1 <= h && h <= 500) {
                        return Err(TsplError::LinearHeight);
                    }
                    Some(h)
                },
            },
            _ => None,
        };
        assert(extra matches Some(v) ==> v <= 500);
        let mut line = Line::new("RSS");
        line.arg_decimal(x_upper_left.to_dots(self.resolution));
        line.arg_decimal(y_upper_left.to_dots(self.resolution));
        line.arg_quoted(rss_type.token(), true);
        line.arg_str(rotate.token());
        line.arg_decimal(pix_mult);
        line.arg_decimal(separator_height as i64);
        if let Some(v) = extra {
            line.arg_decimal(v as i64);
        }
        line.arg_quoted(content, true);
        self.emit(
            line,
            Ghost("RSS"@),
            Ghost(
                rss_args(
                    self.resolution,
                    x_upper_left,
                    y_upper_left,
                    rss_type,
                    rotate,
                    module_width,
                    separator_height,
                    extra,
                    content@,
                ),
            ),
        );
        Ok(())
    }
}

} // verus!
