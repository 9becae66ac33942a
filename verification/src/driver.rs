//! The conversion driver, an explicit state machine over the two-pass
//! streaming conversion: a counting pass over every line, then — after the
//! caller reopens the forward-only input — a header pass and a streaming
//! pass that yields the encoded records of each data line in order. The
//! caller performs all reading and writing and hands each line in as an
//! event; any failure is fatal and moves the machine to its failed state.
use vstd::prelude::*;

verus! {

use crate::VcfError;
use crate::counter::{
    alt_allele_count,
    is_data_line,
    line_fields,
    spec_line_countable,
    spec_line_variants,
};
use crate::header::{parse_header_samples, spec_header_line_ok, spec_header_samples, starts_with_meta};
use crate::text::{count_char, views_of};
use crate::variant::{parse_genotype_line, split_multiallelic, spec_line_encodes, spec_line_ok, EncodedVariant};
use vstd::string::StrSliceExecFns;

/// The line ordinal after reading one more line: it saturates at the
/// machine limit.
pub open spec fn spec_next_ordinal(o: usize) -> usize {
    if o < usize::MAX {
        (o + 1) as usize
    } else {
        usize::MAX
    }
}

/// The driver's states, in the order a successful conversion passes
/// through them; the failed state is reachable from any other on an error.
#[derive(Clone, Copy, Debug, PartialEq, Eq, Structural)]
pub enum Phase {
    Idle,
    CountingVariants,
    HeaderRead,
    StreamingVariants,
    Done,
    Failed,
}

/// The driver. It holds the running totals of the counting pass, the
/// sample identifiers once the header is read, and how far the streaming
/// pass has come; the line ordinal of the current pass is kept for error
/// context (it saturates at the machine limit).
pub struct ConversionDriver {
    phase: Phase,
    num_bits: u8,
    variant_total: u32,
    line_total: u32,
    lines_streamed: u32,
    ordinal: usize,
    samples: Vec<String>,
    failure: Option<VcfError>,
}

impl ConversionDriver {
    pub closed spec fn spec_phase(&self) -> Phase {
        self.phase
    }

    pub closed spec fn spec_num_bits(&self) -> u8 {
        self.num_bits
    }

    pub closed spec fn spec_variant_total(&self) -> u32 {
        self.variant_total
    }

    pub closed spec fn spec_line_total(&self) -> u32 {
        self.line_total
    }

    pub closed spec fn spec_lines_streamed(&self) -> u32 {
        self.lines_streamed
    }

    pub closed spec fn spec_ordinal(&self) -> usize {
        self.ordinal
    }

    pub closed spec fn spec_samples(&self) -> Seq<Seq<char>> {
        views_of(self.samples@)
    }

    pub closed spec fn spec_failure(&self) -> Option<VcfError> {
        self.failure
    }

    /// The driver's invariant: a legal bit width, a streaming pass that
    /// never overruns the counted lines, and a failure reason exactly in
    /// the failed state.
    pub closed spec fn wf(&self) -> bool {
        &&& self.num_bits < 32
        &&& self.lines_streamed <= self.line_total
        &&& (self.phase == Phase::StreamingVariants ==> self.lines_streamed < self.line_total)
        &&& (self.failure is Some <==> self.phase == Phase::Failed)
    }

    /// A fresh driver in its idle state.
    pub fn new(num_bits: u8) -> (d: ConversionDriver)
        requires
            num_bits < 32,
        ensures
            d.wf(),
            d.spec_phase() == Phase::Idle,
            d.spec_num_bits() == num_bits,
            d.spec_variant_total() == 0,
            d.spec_line_total() == 0,
            d.spec_lines_streamed() == 0,
            d.spec_ordinal() == 0,
            d.spec_samples() == Seq::<Seq<char>>::empty(),
            d.spec_failure() is None,
    {
        let d = ConversionDriver {
            phase: Phase::Idle,
            num_bits,
            variant_total: 0,
            line_total: 0,
            lines_streamed: 0,
            ordinal: 0,
            samples: Vec::new(),
            failure: None,
        };
        proof {
            assert(views_of(d.samples@) =~= Seq::<Seq<char>>::empty());
        }
        d
    }

    pub fn phase(&self) -> (p: Phase)
        ensures
            p == self.spec_phase(),
    {
        self.phase
    }

    pub fn num_bits(&self) -> (b: u8)
        ensures
            b == self.spec_num_bits(),
    {
        self.num_bits
    }

    pub fn variant_total(&self) -> (v: u32)
        ensures
            v == self.spec_variant_total(),
    {
        self.variant_total
    }

    pub fn line_total(&self) -> (l: u32)
        ensures
            l == self.spec_line_total(),
    {
        self.line_total
    }

    pub fn samples(&self) -> (s: &Vec<String>)
        ensures
            views_of(s@) == self.spec_samples(),
    {
        &self.samples
    }

    pub fn failure(&self) -> (e: &Option<VcfError>)
        ensures
            *e == self.spec_failure(),
    {
        &self.failure
    }

    /// Begins the counting pass.
    pub fn start_counting(&mut self)
        requires
            old(self).wf(),
            old(self).spec_phase() == Phase::Idle,
        ensures
            final(self).wf(),
            final(self).spec_phase() == Phase::CountingVariants,
            final(self).spec_num_bits() == old(self).spec_num_bits(),
            final(self).spec_variant_total() == 0,
            final(self).spec_line_total() == 0,
            final(self).spec_ordinal() == 0,
    {
        self.phase = Phase::CountingVariants;
        self.variant_total = 0;
        self.line_total = 0;
        self.lines_streamed = 0;
        self.ordinal = 0;
    }

    /// Counts one line of the first pass: a `#`-prefixed line is skipped,
    /// a data line adds one to the line total and one per alternate allele
    /// to the variant total. Fails — fatally, moving to the failed state —
    /// on a data line with fewer than five fields or when a total outgrows
    /// its 32-bit field.
    pub fn count_line(&mut self, line: &str) -> (r: Result<(), VcfError>)
        requires
            old(self).wf(),
            old(self).spec_phase() == Phase::CountingVariants,
        ensures
            final(self).wf(),
            final(self).spec_num_bits() == old(self).spec_num_bits(),
            r is Ok <==> (!is_data_line(line@) || (spec_line_countable(line@)
                && old(self).spec_variant_total() + spec_line_variants(line@) <= u32::MAX
                && old(self).spec_line_total() + 1 <= u32::MAX)),
            r is Ok ==> ({
                &&& final(self).spec_phase() == Phase::CountingVariants
                &&& final(self).spec_variant_total() == old(self).spec_variant_total() + (
                if is_data_line(line@) {
                    spec_line_variants(line@)
                } else {
                    0
                })
                &&& final(self).spec_line_total() == old(self).spec_line_total() + (
                if is_data_line(line@) {
                    1int
                } else {
                    0int
                })
            }),
            r is Err ==> ({
                &&& final(self).spec_phase() == Phase::Failed
                &&& final(self).spec_failure() == Some(r->Err_0)
                &&& r->Err_0 == (VcfError::ParseFailure {
                    line: spec_next_ordinal(old(self).spec_ordinal()),
                })
            }),
    {
        let here = self.bump_ordinal();
        let is_meta = line.unicode_len() >= 1 && line.get_char(0) == '#';
        if is_meta {
            return Ok(());
        }
        let added = match alt_allele_count(line) {
            Ok(a) => a,
            Err(_) => {
                return Err(self.fail_parse(here));
            },
        };
        if added > u32::MAX - self.variant_total {
            return Err(self.fail_parse(here));
        }
        if self.line_total == u32::MAX {
            return Err(self.fail_parse(here));
        }
        self.variant_total = self.variant_total + added;
        self.line_total = self.line_total + 1;
        Ok(())
    }

    /// Ends the counting pass; the caller must reopen the forward-only
    /// input before handing header lines in.
    pub fn finish_counting(&mut self)
        requires
            old(self).wf(),
            old(self).spec_phase() == Phase::CountingVariants,
        ensures
            final(self).wf(),
            final(self).spec_phase() == Phase::HeaderRead,
            final(self).spec_num_bits() == old(self).spec_num_bits(),
            final(self).spec_variant_total() == old(self).spec_variant_total(),
            final(self).spec_line_total() == old(self).spec_line_total(),
            final(self).spec_ordinal() == 0,
            final(self).spec_lines_streamed() == 0,
    {
        self.phase = Phase::HeaderRead;
        self.ordinal = 0;
        self.lines_streamed = 0;
    }

    /// Takes one line of the header pass. A `##` meta line is skipped
    /// (`Ok(false)`); the next line must be the `#`-prefixed column line,
    /// whose sample identifiers move the driver to the streaming pass
    /// (`Ok(true)`) — or straight to done when no data line was counted.
    /// Any other line is a fatal parse failure.
    pub fn header_line(&mut self, line: &str) -> (r: Result<bool, VcfError>)
        requires
            old(self).wf(),
            old(self).spec_phase() == Phase::HeaderRead,
        ensures
            final(self).wf(),
            final(self).spec_num_bits() == old(self).spec_num_bits(),
            final(self).spec_variant_total() == old(self).spec_variant_total(),
            final(self).spec_line_total() == old(self).spec_line_total(),
            r is Ok <==> (starts_with_meta(line@) || spec_header_line_ok(line@)),
            r is Ok ==> r->Ok_0 == !starts_with_meta(line@),
            starts_with_meta(line@) ==> (final(self).spec_phase() == Phase::HeaderRead
                && final(self).spec_samples() == old(self).spec_samples()),
            (!starts_with_meta(line@) && spec_header_line_ok(line@)) ==> ({
                &&& final(self).spec_samples() == spec_header_samples(line@)
                &&& final(self).spec_phase() == (if old(self).spec_line_total() == 0 {
                    Phase::Done
                } else {
                    Phase::StreamingVariants
                })
                &&& final(self).spec_lines_streamed() == 0
            }),
            r is Err ==> ({
                &&& final(self).spec_phase() == Phase::Failed
                &&& final(self).spec_failure() == Some(r->Err_0)
                &&& r->Err_0 == (VcfError::ParseFailure {
                    line: spec_next_ordinal(old(self).spec_ordinal()),
                })
            }),
    {
        let here = self.bump_ordinal();
        let is_meta = line.unicode_len() >= 2 && line.get_char(0) == '#' && line.get_char(1)
            == '#';
        if is_meta {
            return Ok(false);
        }
        match parse_header_samples(line) {
            Ok(samples) => {
                self.samples = samples;
                self.lines_streamed = 0;
                self.phase = if self.line_total == 0 {
                    Phase::Done
                } else {
                    Phase::StreamingVariants
                };
                Ok(true)
            },
            Err(_) => Err(self.fail_parse(here)),
        }
    }

    /// Reports that the input ended while the column-header line was still
    /// missing: a fatal parse failure at the current ordinal.
    pub fn header_input_ended(&mut self) -> (e: VcfError)
        requires
            old(self).wf(),
            old(self).spec_phase() == Phase::HeaderRead,
        ensures
            final(self).wf(),
            final(self).spec_phase() == Phase::Failed,
            final(self).spec_failure() == Some(e),
            e == (VcfError::ParseFailure { line: old(self).spec_ordinal() }),
    {
        self.failure = Some(VcfError::ParseFailure { line: self.ordinal });
        self.phase = Phase::Failed;
        VcfError::ParseFailure { line: self.ordinal }
    }

    /// Reports a failure of the caller's input or output stream: fatal
    /// from any state.
    pub fn fail_io(&mut self) -> (e: VcfError)
        requires
            old(self).wf(),
        ensures
            final(self).wf(),
            final(self).spec_phase() == Phase::Failed,
            final(self).spec_failure() == Some(e),
            e == VcfError::IoFailure,
    {
        self.phase = Phase::Failed;
        self.failure = Some(VcfError::IoFailure);
        VcfError::IoFailure
    }

    /// Converts one data line of the streaming pass into its encoded
    /// records, one per alternate allele, in order; the caller writes them
    /// out contiguously. After the counted number of lines the driver is
    /// done. A malformed line is a fatal parse failure.
    pub fn stream_line(&mut self, line: &str) -> (r: Result<Vec<EncodedVariant>, VcfError>)
        requires
            old(self).wf(),
            old(self).spec_phase() == Phase::StreamingVariants,
        ensures
            final(self).wf(),
            final(self).spec_num_bits() == old(self).spec_num_bits(),
            final(self).spec_variant_total() == old(self).spec_variant_total(),
            final(self).spec_line_total() == old(self).spec_line_total(),
            final(self).spec_samples() == old(self).spec_samples(),
            r is Ok <==> spec_line_ok(line@, old(self).spec_samples().len() as int),
            r is Ok ==> ({
                &&& r->Ok_0@.len() == count_char(line_fields(line@)[4], ',') + 1
                &&& (forall|i: int|
                    0 <= i < r->Ok_0@.len() ==> spec_line_encodes(
                        line@,
                        old(self).spec_samples().len() as int,
                        old(self).spec_num_bits(),
                        i,
                        #[trigger] r->Ok_0@[i],
                    ))
                &&& final(self).spec_lines_streamed() == old(self).spec_lines_streamed() + 1
                &&& final(self).spec_phase() == (if old(self).spec_lines_streamed() + 1
                    == old(self).spec_line_total() {
                    Phase::Done
                } else {
                    Phase::StreamingVariants
                })
            }),
            r is Err ==> ({
                &&& final(self).spec_phase() == Phase::Failed
                &&& final(self).spec_failure() == Some(r->Err_0)
                &&& r->Err_0 == (VcfError::ParseFailure {
                    line: spec_next_ordinal(old(self).spec_ordinal()),
                })
            }),
    {
        let here = self.bump_ordinal();
        let record = match parse_genotype_line(line, self.samples.len()) {
            Ok(rec) => rec,
            Err(_) => {
                return Err(self.fail_parse(here));
            },
        };
        let encoded = match split_multiallelic(&record, self.num_bits) {
            Ok(v) => v,
            Err(_) => {
                return Err(self.fail_parse(here));
            },
        };
        self.lines_streamed = self.lines_streamed + 1;
        if self.lines_streamed == self.line_total {
            self.phase = Phase::Done;
        }
        Ok(encoded)
    }

    /// Advances the pass-local line ordinal, saturating at the machine
    /// limit, and returns the advanced value for error context.
    fn bump_ordinal(&mut self) -> (here: usize)
        ensures
            *final(self) == (ConversionDriver {
                ordinal: final(self).ordinal,
                ..*old(self)
            }),
            old(self).ordinal < usize::MAX ==> (final(self).ordinal == old(self).ordinal + 1
                && here == old(self).ordinal + 1),
            old(self).ordinal == usize::MAX ==> (final(self).ordinal == usize::MAX && here
                == usize::MAX),
    {
        if self.ordinal < usize::MAX {
            self.ordinal = self.ordinal + 1;
        }
        self.ordinal
    }

    /// Records a fatal parse failure at the given line ordinal.
    fn fail_parse(&mut self, here: usize) -> (e: VcfError)
        ensures
            final(self).phase == Phase::Failed,
            final(self).failure == Some(e),
            final(self).num_bits == old(self).num_bits,
            final(self).variant_total == old(self).variant_total,
            final(self).line_total == old(self).line_total,
            final(self).lines_streamed == old(self).lines_streamed,
            final(self).ordinal == old(self).ordinal,
            final(self).samples == old(self).samples,
            e == (VcfError::ParseFailure { line: here }),
    {
        self.failure = Some(VcfError::ParseFailure { line: here });
        self.phase = Phase::Failed;
        VcfError::ParseFailure { line: here }
    }
}

} // verus!
