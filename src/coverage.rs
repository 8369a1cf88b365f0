//! Documentation coverage: which lines of the coverage report are decoded,
//! and how the per-file counts add up.
use vstd::prelude::*;

verus! {

/// Documentation coverage of one build: documentable items and documented ones.
#[derive(Clone, Copy, Debug, PartialEq, Eq, Structural)]
pub struct DocCoverage {
    pub total_items: i32,
    pub documented_items: i32,
}

/// The counts reported for one source file.
#[derive(Clone, Copy, Debug, PartialEq, Eq, Structural)]
pub struct FileCoverage {
    pub total: i32,
    pub with_docs: i32,
}

/// Whether a line of the report looks like a complete object, `{` ... `}`.
pub open spec fn is_object_text(line: Seq<char>) -> bool {
    line.len() > 0 && line[0] == '{' && line.last() == '}'
}

pub open spec fn fits_i32(x: int) -> bool {
    i32::MIN <= x <= i32::MAX
}

/// The running totals after adding `files` one by one to `start`, or `None`
/// when some partial total leaves the range of `i32`.
pub open spec fn add_files(start: (int, int), files: Seq<FileCoverage>) -> Option<(int, int)>
    decreases files.len(),
{
    if files.len() == 0 {
        Some(start)
    } else {
        match add_files(start, files.drop_last()) {
            None => None,
            Some(p) => {
                let t = p.0 + files.last().total;
                let d = p.1 + files.last().with_docs;
                if fits_i32(t) && fits_i32(d) {
                    Some((t, d))
                } else {
                    None
                }
            },
        }
    }
}

/// Whether a line of the coverage report is handed to the decoder; other
/// lines are skipped.
pub fn is_object_line(line: &str) -> (r: bool)
    ensures
        r == is_object_text(line@),
{
    let n = line.unicode_len();
    if n == 0 {
        return false;
    }
    line.get_char(0) == '{' && line.get_char(n - 1) == '}'
}

/// Running totals over the decoded lines of one coverage report.
pub struct CoverageTally {
    pub total_items: i32,
    pub documented_items: i32,
}

impl CoverageTally {
    pub fn new() -> (r: CoverageTally)
        ensures
            r.total_items == 0,
            r.documented_items == 0,
    {
        CoverageTally { total_items: 0, documented_items: 0 }
    }

    /// Adds the files of one decoded line. When a running total would leave
    /// the range of `i32`, the tally is left as it was and `false` is returned.
    pub fn add_line(&mut self, files: &Vec<FileCoverage>) -> (ok: bool)
        ensures
            ok == (add_files(
                (old(self).total_items as int, old(self).documented_items as int),
                files@,
            ) is Some),
            ok ==> final(self).total_items == add_files(
                (old(self).total_items as int, old(self).documented_items as int),
                files@,
            )->Some_0.0,
            ok ==> final(self).documented_items == add_files(
                (old(self).total_items as int, old(self).documented_items as int),
                files@,
            )->Some_0.1,
            !ok ==> final(self).total_items == old(self).total_items,
            !ok ==> final(self).documented_items == old(self).documented_items,
    {
        let ghost start = (old(self).total_items as int, old(self).documented_items as int);
        let mut total: i32 = self.total_items;
        let mut documented: i32 = self.documented_items;
        let mut i: usize = 0;
        while i < files.len()
            invariant
                i <= files@.len(),
                start == (old(self).total_items as int, old(self).documented_items as int),
                add_files(start, files@.take(i as int)) == Some((total as int, documented as int)),
            decreases files@.len() - i,
        {
            assert(files@.take(i + 1).drop_last() == files@.take(i as int));
            let f = files[i];
            match (total.checked_add(f.total), documented.checked_add(f.with_docs)) {
                (Some(t), Some(d)) => {
                    total = t;
                    documented = d;
                },
                _ => {
                    assert(files@.take(i + 1).last() == f);
                    assert(add_files(start, files@.take(i + 1)) is None);
                    proof {
                        lemma_add_files_stays_none(start, files@, i as int + 1);
                    }
                    return false;
                },
            }
            i = i + 1;
        }
        assert(files@.take(files@.len() as int) == files@);
        self.total_items = total;
        self.documented_items = documented;
        true
    }

    /// The coverage of the report: none when both totals are zero.
    pub fn finish(&self) -> (r: Option<DocCoverage>)
        ensures
            r is None <==> (self.total_items == 0 && self.documented_items == 0),
            r is Some ==> r->Some_0.total_items == self.total_items
                && r->Some_0.documented_items == self.documented_items,
    {
        if self.total_items == 0 && self.documented_items == 0 {
            None
        } else {
            Some(DocCoverage { total_items: self.total_items, documented_items: self.documented_items })
        }
    }
}

proof fn lemma_add_files_stays_none(start: (int, int), files: Seq<FileCoverage>, k: int)
    requires
        0 <= k <= files.len(),
        add_files(start, files.take(k)) is None,
    ensures
        add_files(start, files) is None,
    decreases files.len() - k,
{
    if k < files.len() {
        assert(files.take(k + 1).drop_last() == files.take(k));
        lemma_add_files_stays_none(start, files, k + 1);
    } else {
        assert(files.take(k) == files);
    }
}

/// The result of one target's build.
pub struct BuildOutcome {
    pub successful: bool,
    pub build_log: String,
    pub rustc_version: String,
    pub docsrs_version: String,
    pub doc_coverage: Option<DocCoverage>,
}

impl BuildOutcome {
    /// Coverage belongs to successful builds only.
    pub open spec fn wf(&self) -> bool {
        self.doc_coverage is Some ==> self.successful
    }

    /// Records a build; what was measured of coverage is kept only when the
    /// build succeeded.
    pub fn new(
        successful: bool,
        build_log: String,
        rustc_version: String,
        docsrs_version: String,
        measured: Option<DocCoverage>,
    ) -> (r: BuildOutcome)
        ensures
            r.wf(),
            r.successful == successful,
            r.build_log == build_log,
            r.rustc_version == rustc_version,
            r.docsrs_version == docsrs_version,
            r.doc_coverage == if successful {
                measured
            } else {
                None
            },
    {
        BuildOutcome {
            successful,
            build_log,
            rustc_version,
            docsrs_version,
            doc_coverage: if successful {
                measured
            } else {
                None
            },
        }
    }
}

} // verus!
