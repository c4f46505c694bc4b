//! The test coverage as the dashboard shows it, counted from the JSON
//! export of the coverage tool.

use crate::json::json_of_text;
use crate::json::views;
use crate::json::Json;
use crate::json::JsonError;
use crate::json::JsonView;
use crate::limits::held;
use crate::limits::lemma_held;
use vstd::prelude::*;

verus! {

/// The coverage of the project: of how many segments the export speaks, how
/// many of them were run, and the first files that it names. The share in
/// percent is `covered_segments * 100 / total_segments`, or zero where there
/// are no segments.
#[derive(Debug, Clone)]
pub struct CoverageInfo {
    pub covered_segments: u64,
    pub total_segments: u64,
    pub files: Vec<FileCoverage>,
}

/// One file of the export. No share is kept by file.
#[derive(Debug, Clone)]
pub struct FileCoverage {
    pub name: String,
}

/// The number of files that the dashboard keeps.
pub const FILES_KEPT: usize = 10;

/// What a segment adds to the count of all segments (`run_only` false) or
/// to the count of those that were run (`run_only` true). A segment counts
/// where its first entry is a number, and it was run where its second entry
/// is a number above zero.
pub open spec fn segment_weight(segment: JsonView, run_only: bool) -> nat {
    if segment.number_at(0) is Some && (!run_only || (segment.number_at(1) is Some
        && segment.number_at(1)->0 > 0)) {
        1
    } else {
        0
    }
}

/// The count over a list of segments.
pub open spec fn segments_weight(segments: Seq<JsonView>, run_only: bool) -> nat
    decreases segments.len(),
{
    if segments.len() == 0 {
        0
    } else {
        segments_weight(segments.drop_last(), run_only) + segment_weight(segments.last(), run_only)
    }
}

/// The count over the segments of a file: those of the list under
/// `segments`, and none where there is no such list.
pub open spec fn file_weight(file: JsonView, run_only: bool) -> nat {
    match file.field("segments"@).items() {
        Some(segments) => segments_weight(segments, run_only),
        None => 0,
    }
}

/// The name under which a file is shown: the text under `name`, or
/// `unknown` where there is no such text.
pub open spec fn file_name(file: JsonView) -> Seq<char> {
    match file.field("name"@).text() {
        Some(name) => name,
        None => "unknown"@,
    }
}

/// The count over a list of files.
pub open spec fn files_weight(files: Seq<JsonView>, run_only: bool) -> nat
    decreases files.len(),
{
    if files.len() == 0 {
        0
    } else {
        files_weight(files.drop_last(), run_only) + file_weight(files.last(), run_only)
    }
}

/// The names of a list of files, in its order.
pub open spec fn files_names(files: Seq<JsonView>) -> Seq<Seq<char>>
    decreases files.len(),
{
    if files.len() == 0 {
        Seq::empty()
    } else {
        files_names(files.drop_last()).push(file_name(files.last()))
    }
}

/// The count over the files of an entry of the export's data: those of the
/// list under `files`, and none where there is no such list.
pub open spec fn entry_weight(entry: JsonView, run_only: bool) -> nat {
    match entry.field("files"@).items() {
        Some(files) => files_weight(files, run_only),
        None => 0,
    }
}

/// The names of the files of an entry.
pub open spec fn entry_names(entry: JsonView) -> Seq<Seq<char>> {
    match entry.field("files"@).items() {
        Some(files) => files_names(files),
        None => Seq::empty(),
    }
}

/// The count over a list of entries.
pub open spec fn entries_weight(entries: Seq<JsonView>, run_only: bool) -> nat
    decreases entries.len(),
{
    if entries.len() == 0 {
        0
    } else {
        entries_weight(entries.drop_last(), run_only) + entry_weight(entries.last(), run_only)
    }
}

/// The names of the files of a list of entries, entry by entry.
pub open spec fn entries_names(entries: Seq<JsonView>) -> Seq<Seq<char>>
    decreases entries.len(),
{
    if entries.len() == 0 {
        Seq::empty()
    } else {
        entries_names(entries.drop_last()) + entry_names(entries.last())
    }
}

/// The count over a whole export: over the entries of the list under
/// `data`, and nothing where there is no such list.
pub open spec fn export_weight(export: JsonView, run_only: bool) -> nat {
    match export.field("data"@).items() {
        Some(entries) => entries_weight(entries, run_only),
        None => 0,
    }
}

/// The names of all files of an export.
pub open spec fn export_names(export: JsonView) -> Seq<Seq<char>> {
    match export.field("data"@).items() {
        Some(entries) => entries_names(entries),
        None => Seq::empty(),
    }
}

/// Whether `files` are the first `FILES_KEPT` of `names`, or all of them
/// where there are fewer.
pub open spec fn keeps_first(files: Seq<FileCoverage>, names: Seq<Seq<char>>) -> bool {
    &&& files.len() == if names.len() < FILES_KEPT {
        names.len()
    } else {
        FILES_KEPT as nat
    }
    &&& forall|k: int| 0 <= k < files.len() ==> (#[trigger] files[k]).name@ == names[k]
}

/// Whether `info` is what the dashboard shows of `export`: the segments
/// counted over all files of all entries, each count held at the largest
/// `u64`, and the first files by name.
pub open spec fn shows_export(info: CoverageInfo, export: JsonView) -> bool {
    &&& info.total_segments == held(export_weight(export, false))
    &&& info.covered_segments == held(export_weight(export, true))
    &&& keeps_first(info.files@, export_names(export))
}

/// No more segments were run than there are, and no more are counted than
/// the list is long.
pub proof fn lemma_segments_weight(segments: Seq<JsonView>)
    ensures
        segments_weight(segments, true) <= segments_weight(segments, false) <= segments.len(),
    decreases segments.len(),
{
    if segments.len() > 0 {
        lemma_segments_weight(segments.drop_last());
    }
}

/// In every export no more segments were run than there are.
pub proof fn lemma_covered_within_total(export: JsonView)
    ensures
        export_weight(export, true) <= export_weight(export, false),
        held(export_weight(export, true)) <= held(export_weight(export, false)),
{
    match export.field("data"@).items() {
        Some(entries) => lemma_entries_covered_within_total(entries),
        None => {},
    }
    lemma_held(export_weight(export, true), export_weight(export, false));
}

proof fn lemma_files_covered_within_total(files: Seq<JsonView>)
    ensures
        files_weight(files, true) <= files_weight(files, false),
    decreases files.len(),
{
    if files.len() > 0 {
        lemma_files_covered_within_total(files.drop_last());
        match files.last().field("segments"@).items() {
            Some(segments) => lemma_segments_weight(segments),
            None => {},
        }
    }
}

proof fn lemma_entries_covered_within_total(entries: Seq<JsonView>)
    ensures
        entries_weight(entries, true) <= entries_weight(entries, false),
    decreases entries.len(),
{
    if entries.len() > 0 {
        lemma_entries_covered_within_total(entries.drop_last());
        match entries.last().field("files"@).items() {
            Some(files) => lemma_files_covered_within_total(files),
            None => {},
        }
    }
}

/// What the dashboard makes of a coverage export.
pub struct CoverageModule;

impl CoverageModule {
    /// How many of `segments` count, and how many of them were run.
    pub fn count_segments(segments: &Vec<Json>) -> (counts: (u64, u64))
        ensures
            counts.0 == segments_weight(views(segments@), false),
            counts.1 == segments_weight(views(segments@), true),
    {
        let ghost all = views(segments@);
        let mut total: u64 = 0;
        let mut covered: u64 = 0;
        let mut i: usize = 0;
        while i < segments.len()
            invariant
                i <= segments.len(),
                all == views(segments@),
                total <= i,
                covered <= i,
                total == segments_weight(all.take(i as int), false),
                covered == segments_weight(all.take(i as int), true),
            decreases segments.len() - i,
        {
            let segment = &segments[i];
            proof {
                let next = all.take(i + 1);
                assert(next.drop_last() =~= all.take(i as int));
                assert(next.last() == segment@);
            }
            if segment.number_at(0).is_some() {
                total += 1;
                match segment.number_at(1) {
                    Some(hits) => {
                        if hits > 0 {
                            covered += 1;
                        }
                    },
                    None => {},
                }
            }
            i += 1;
        }
        assert(all.take(i as int) =~= all);
        (total, covered)
    }

    /// The name under which `file` is shown.
    pub fn shown_name(file: &Json) -> (name: String)
        ensures
            name@ == file_name(file@),
    {
        match file.text_field("name") {
            Some(name) => name.to_owned(),
            None => "unknown".to_owned(),
        }
    }

    /// What the dashboard shows of the export `export`.
    pub fn summarize(export: &Json) -> (info: CoverageInfo)
        ensures
            shows_export(info, export@),
    {
        let mut info = CoverageInfo { covered_segments: 0, total_segments: 0, files: Vec::new() };
        let entries = match export.list_field("data") {
            Some(entries) => entries,
            None => {
                return info;
            },
        };
        let ghost all = views(entries@);
        let mut i: usize = 0;
        while i < entries.len()
            invariant
                i <= entries.len(),
                all == views(entries@),
                info.total_segments == held(entries_weight(all.take(i as int), false)),
                info.covered_segments == held(entries_weight(all.take(i as int), true)),
                keeps_first(info.files@, entries_names(all.take(i as int))),
            decreases entries.len() - i,
        {
            proof {
                let next = all.take(i + 1);
                assert(next.drop_last() =~= all.take(i as int));
                assert(next.last() == entries@[i as int]@);
            }
            match entries[i].list_field("files") {
                Some(files) => {
                    Self::add_files(&mut info, files, Ghost(all.take(i as int)));
                },
                None => {
                    assert(entries_names(all.take(i as int)) + Seq::<Seq<char>>::empty()
                        =~= entries_names(all.take(i as int)));
                },
            }
            i += 1;
        }
        assert(all.take(i as int) =~= all);
        info
    }

    /// Adds the files of one entry to what was counted over the entries
    /// `before` it.
    fn add_files(info: &mut CoverageInfo, files: &Vec<Json>, Ghost(before): Ghost<Seq<JsonView>>)
        requires
            old(info).total_segments == held(entries_weight(before, false)),
            old(info).covered_segments == held(entries_weight(before, true)),
            keeps_first(old(info).files@, entries_names(before)),
        ensures
            final(info).total_segments == held(
                entries_weight(before, false) + files_weight(views(files@), false),
            ),
            final(info).covered_segments == held(
                entries_weight(before, true) + files_weight(views(files@), true),
            ),
            keeps_first(final(info).files@, entries_names(before) + files_names(views(files@))),
    {
        let ghost names_before = entries_names(before);
        let ghost all = views(files@);
        let mut j: usize = 0;
        assert(names_before + files_names(all.take(0)) =~= names_before);
        while j < files.len()
            invariant
                j <= files.len(),
                all == views(files@),
                names_before == entries_names(before),
                info.total_segments == held(
                    entries_weight(before, false) + files_weight(all.take(j as int), false),
                ),
                info.covered_segments == held(
                    entries_weight(before, true) + files_weight(all.take(j as int), true),
                ),
                keeps_first(info.files@, names_before + files_names(all.take(j as int))),
            decreases files.len() - j,
        {
            let file = &files[j];
            proof {
                let next = all.take(j + 1);
                assert(next.drop_last() =~= all.take(j as int));
                assert(next.last() == file@);
                assert(names_before + files_names(next) =~= (names_before + files_names(
                    all.take(j as int),
                )).push(file_name(file@)));
                lemma_held(
                    entries_weight(before, false) + files_weight(all.take(j as int), false),
                    file_weight(file@, false),
                );
                lemma_held(
                    entries_weight(before, true) + files_weight(all.take(j as int), true),
                    file_weight(file@, true),
                );
            }
            match file.list_field("segments") {
                Some(segments) => {
                    let (total, covered) = Self::count_segments(segments);
                    info.total_segments = info.total_segments.saturating_add(total);
                    info.covered_segments = info.covered_segments.saturating_add(covered);
                },
                None => {},
            }
            if info.files.len() < FILES_KEPT {
                info.files.push(FileCoverage { name: Self::shown_name(file) });
            }
            j += 1;
        }
        assert(all.take(j as int) =~= all);
    }

    /// What the dashboard shows of the export that the text `json_str`
    /// holds. A text that is no JSON is refused; any JSON is an export, if
    /// only an empty one.
    pub fn parse_llvm_cov(json_str: &str) -> (parsed: Result<CoverageInfo, JsonError>)
        ensures
            match parsed {
                Ok(info) => json_of_text(json_str@) is Some && shows_export(
                    info,
                    json_of_text(json_str@)->0,
                ),
                Err(error) => json_of_text(json_str@) is None && error == JsonError::Malformed,
            },
    {
        match Json::parse(json_str) {
            Ok(export) => Ok(Self::summarize(&export)),
            Err(error) => Err(error),
        }
    }

    /// What the dashboard shows after a run of the coverage tool that
    /// printed `output`: nothing covered where the run failed, whatever it
    /// printed; else what the export says that it printed.
    pub fn from_run(succeeded: bool, output: &str) -> (parsed: Result<CoverageInfo, JsonError>)
        ensures
            !succeeded ==> parsed is Ok && parsed->Ok_0.is_placeholder(),
            succeeded ==> match parsed {
                Ok(info) => json_of_text(output@) is Some && shows_export(
                    info,
                    json_of_text(output@)->0,
                ),
                Err(error) => json_of_text(output@) is None && error == JsonError::Malformed,
            },
    {
        if !succeeded {
            return Ok(CoverageInfo::default());
        }
        Self::parse_llvm_cov(output)
    }
}

impl CoverageInfo {
    /// Whether this is the coverage that stands in before any was measured.
    pub open spec fn is_placeholder(&self) -> bool {
        &&& self.covered_segments == 0
        &&& self.total_segments == 0
        &&& self.files@.len() == 0
    }
}

impl Default for CoverageInfo {
    fn default() -> (info: CoverageInfo)
        ensures
            info.is_placeholder(),
    {
        CoverageInfo { covered_segments: 0, total_segments: 0, files: Vec::new() }
    }
}

} // verus!
