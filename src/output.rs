//! Printing through a destination that the caller supplies: standard
//! output, or a callback installed in its place.
use crate::complete::{completion_line, format_complete, painted, status_tag_of, CompleteStatus};
use crate::message::{experimental_notice, EXPERIMENTAL_TAIL};
use vstd::prelude::*;

verus! {

/// Where printed lines go. Each implementation states, through `printed`,
/// what it has received.
pub trait LinePrinter {
    /// The lines received so far, in order.
    spec fn printed(&self) -> Seq<Seq<char>>;

    /// Receives one line, without a line terminator.
    fn print_line(&mut self, line: &String)
        ensures
            final(self).printed() == old(self).printed().push(line@),
    ;
}

/// A printer that keeps every line it receives, in order.
pub struct LineRecorder {
    lines: Vec<String>,
}

impl LineRecorder {
    /// A recorder that has received nothing.
    pub fn new() -> (r: LineRecorder)
        ensures
            r.printed() == Seq::<Seq<char>>::empty(),
    {
        let r = LineRecorder { lines: Vec::new() };
        assert(r.lines@.map_values(|s: String| s@) =~= Seq::<Seq<char>>::empty());
        r
    }

    /// The lines received so far.
    pub fn lines(&self) -> (r: &Vec<String>)
        ensures
            r@.map_values(|s: String| s@) == self.printed(),
    {
        &self.lines
    }
}

impl LinePrinter for LineRecorder {
    closed spec fn printed(&self) -> Seq<Seq<char>> {
        self.lines@.map_values(|s: String| s@)
    }

    fn print_line(&mut self, line: &String) {
        let copy = line.clone();
        self.lines.push(copy);
        assert(self.lines@.map_values(|s: String| s@) =~= old(self).lines@.map_values(
            |s: String| s@,
        ).push(line@));
    }
}

/// Prints the completion line for a label and status; returns the line
/// handed to the printer.
pub fn print_complete<P: LinePrinter>(
    printer: &mut P,
    file_base_name: &str,
    status: CompleteStatus,
) -> (r: String)
    ensures
        final(printer).printed() == old(printer).printed().push(r@),
        exists|cols: Option<u16>, tag: Seq<char>|
            status_tag_of(status, tag) && r@ == completion_line(file_base_name@, cols, tag),
{
    let line = format_complete(file_base_name, status);
    printer.print_line(&line);
    line
}

/// Prints the completion line ending in `[ DONE ]`.
pub fn print_done<P: LinePrinter>(printer: &mut P, file_base_name: &str) -> (r: String)
    ensures
        final(printer).printed() == old(printer).printed().push(r@),
        exists|cols: Option<u16>, tag: Seq<char>|
            status_tag_of(CompleteStatus::OK, tag) && r@ == completion_line(
                file_base_name@,
                cols,
                tag,
            ),
{
    print_complete(printer, file_base_name, CompleteStatus::OK)
}

/// Prints the completion line ending in `[ WARN ]`.
pub fn print_warn<P: LinePrinter>(printer: &mut P, file_base_name: &str) -> (r: String)
    ensures
        final(printer).printed() == old(printer).printed().push(r@),
        exists|cols: Option<u16>, tag: Seq<char>|
            status_tag_of(CompleteStatus::WARN, tag) && r@ == completion_line(
                file_base_name@,
                cols,
                tag,
            ),
{
    print_complete(printer, file_base_name, CompleteStatus::WARN)
}

/// Prints the completion line ending in `[ FAIL ]`.
pub fn print_fail<P: LinePrinter>(printer: &mut P, file_base_name: &str) -> (r: String)
    ensures
        final(printer).printed() == old(printer).printed().push(r@),
        exists|cols: Option<u16>, tag: Seq<char>|
            status_tag_of(CompleteStatus::FAIL, tag) && r@ == completion_line(
                file_base_name@,
                cols,
                tag,
            ),
{
    print_complete(printer, file_base_name, CompleteStatus::FAIL)
}

/// Prints the notice that marks code as experimental.
pub fn print_experimental<P: LinePrinter>(printer: &mut P) -> (r: String)
    ensures
        final(printer).printed() == old(printer).printed().push(r@),
        exists|head: Seq<char>|
            painted("Experimental Code!"@, "31"@, head) && r@ == head + EXPERIMENTAL_TAIL@,
{
    let line = experimental_notice();
    printer.print_line(&line);
    line
}

} // verus!
