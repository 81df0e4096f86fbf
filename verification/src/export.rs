//! Export orchestration: the fixed artifact layout, the fixed write order,
//! and the session state machine that a host drives against the filesystem.
//! The session renders every artifact up front; the host performs one
//! filesystem action per step and reports its outcome.  A failure aborts the
//! remaining steps and keeps the files already written in place.
use vstd::prelude::*;

verus! {

use crate::RepoMetadata;
use crate::CommitInfo;
use crate::ExportOptions;
use crate::ExportResult;
use crate::templates::spec_generate_svg;
use crate::templates::generate_svg;
use crate::templates::spec_opt_str;
use crate::templates::spec_views;
use crate::docs::spec_date_shaped;
use crate::docs::spec_readme_snippet;
use crate::docs::generate_readme_snippet;
use crate::docs::spec_release_notes;
use crate::docs::generate_release_notes_draft;
use crate::docs::spec_press_kit;
use crate::docs::generate_press_kit;

/// The steps of one export, in their fixed order.
#[derive(Clone, Copy, PartialEq, Eq, Structural, Debug)]
pub enum ExportStep {
    CreateDirs,
    WriteSvg,
    RasterizePng,
    WritePng,
    WriteReadme,
    WriteNotes,
    WriteOverview,
    WritePlaceholder,
    Done,
}

/// What the host must do to carry the export one step forward.
pub enum ExportAction {
    /// Create the directory tree at the given path, parents included;
    /// directories that already exist are not an error.
    CreateDirs { path: String },
    /// Write UTF-8 text at the given path, relative to the artifact root.
    WriteText { rel_path: String, content: String },
    /// Rasterize the card to a bitmap of the given width; the host keeps
    /// the bytes for the following write step.
    RasterizePng { svg: String, width: u32 },
    /// Write the rasterized bitmap at the given path, relative to the
    /// artifact root.
    WritePng { rel_path: String },
    /// Nothing is left to do.
    Finished,
}

/// The six artifact paths, relative to the artifact root, in write order.
pub open spec fn spec_export_files() -> Seq<Seq<char>> {
    seq![
        "repo-card.svg"@,
        "repo-card.png"@,
        "README-snippet.md"@,
        "release-notes-draft.md"@,
        "press-kit/overview.md"@,
        "press-kit/screenshots/.gitkeep"@,
    ]
}

/// How many artifacts stand written once the session is at the given step.
pub open spec fn spec_files_done(step: ExportStep) -> int {
    match step {
        ExportStep::CreateDirs => 0,
        ExportStep::WriteSvg => 0,
        ExportStep::RasterizePng => 1,
        ExportStep::WritePng => 1,
        ExportStep::WriteReadme => 2,
        ExportStep::WriteNotes => 3,
        ExportStep::WriteOverview => 4,
        ExportStep::WritePlaceholder => 5,
        ExportStep::Done => 6,
    }
}

/// The step that follows a completed step.
pub open spec fn spec_next_step(step: ExportStep) -> ExportStep {
    match step {
        ExportStep::CreateDirs => ExportStep::WriteSvg,
        ExportStep::WriteSvg => ExportStep::RasterizePng,
        ExportStep::RasterizePng => ExportStep::WritePng,
        ExportStep::WritePng => ExportStep::WriteReadme,
        ExportStep::WriteReadme => ExportStep::WriteNotes,
        ExportStep::WriteNotes => ExportStep::WriteOverview,
        ExportStep::WriteOverview => ExportStep::WritePlaceholder,
        ExportStep::WritePlaceholder => ExportStep::Done,
        ExportStep::Done => ExportStep::Done,
    }
}

/// The fixed message prefix reported when the given step fails.
pub open spec fn spec_step_error_prefix(step: ExportStep) -> Seq<char> {
    match step {
        ExportStep::CreateDirs => "Failed to create directories: "@,
        ExportStep::WriteSvg => "Failed to write SVG: "@,
        ExportStep::RasterizePng => Seq::<char>::empty(),
        ExportStep::WritePng => "Failed to write PNG: "@,
        ExportStep::WriteReadme => "Failed to write README snippet: "@,
        ExportStep::WriteNotes => "Failed to write release notes: "@,
        ExportStep::WriteOverview => "Failed to write press kit: "@,
        ExportStep::WritePlaceholder => "Failed to write .gitkeep: "@,
        ExportStep::Done => Seq::<char>::empty(),
    }
}

fn clone_opt(o: &Option<String>) -> (r: Option<String>)
    ensures
        r == *o,
{
    match o {
        Some(s) => Some(s.clone()),
        None => None,
    }
}

proof fn lemma_record_next_file(a: Seq<String>, x: String, k: int)
    requires
        0 <= k < 6,
        spec_views(a) == spec_export_files().take(k),
        x@ == spec_export_files()[k],
    ensures
        spec_views(a.push(x)) == spec_export_files().take(k + 1),
{
    assert(spec_views(a).len() == a.len());
    assert(spec_views(a.push(x)) =~~= spec_export_files().take(k + 1));
}

/// One export in progress: the artifacts, the step reached, and the files
/// recorded as written so far.
pub struct ExportSession {
    pub step: ExportStep,
    pub output_dir: String,
    pub svg: String,
    pub readme: String,
    pub notes: String,
    pub overview: String,
    pub files: Vec<String>,
}

impl ExportSession {
    /// The record of written files matches the step reached: it is exactly
    /// the artifact paths of the steps already completed, in write order.
    pub open spec fn wf(self) -> bool {
        spec_views(self.files@) == spec_export_files().take(
            spec_files_done(self.step),
        )
    }

    /// Starts an export: renders the card and every document up front, in
    /// the fixed canvas and section layouts.  Fails exactly when the
    /// template identifier names no variant, and then produces nothing.
    pub fn begin(
        metadata: &RepoMetadata,
        commits: &Vec<CommitInfo>,
        options: &ExportOptions,
    ) -> (r: Result<ExportSession, String>)
        ensures
            match r {
                Ok(s) => {
                    &&& s.step == ExportStep::CreateDirs
                    &&& s.wf()
                    &&& Some(s.svg@) == spec_generate_svg(
                        *metadata,
                        options.template_id@,
                        options.include_attribution,
                        spec_opt_str(options.primary_color),
                        spec_opt_str(options.secondary_color),
                    )
                    &&& s.readme@ == spec_readme_snippet(*metadata, options.include_attribution)
                    &&& exists|d: Seq<char>|
                        #[trigger] spec_date_shaped(d) && s.notes@ == spec_release_notes(
                            *metadata,
                            commits@,
                            "v0.0.0"@,
                            d,
                            options.include_attribution,
                        )
                    &&& s.overview@ == spec_press_kit(*metadata, options.include_attribution)
                    &&& s.output_dir@ == options.output_dir@
                },
                Err(e) => {
                    &&& spec_generate_svg(
                        *metadata,
                        options.template_id@,
                        options.include_attribution,
                        spec_opt_str(options.primary_color),
                        spec_opt_str(options.secondary_color),
                    ) is None
                    &&& e@ == "Unknown template: "@ + options.template_id@
                },
            },
    {
        let svg = match generate_svg(
            metadata,
            options.template_id.as_str(),
            options.include_attribution,
            clone_opt(&options.primary_color),
            clone_opt(&options.secondary_color),
        ) {
            Ok(s) => s,
            Err(e) => {
                return Err(e);
            },
        };
        let readme = generate_readme_snippet(metadata, options.include_attribution);
        let notes = generate_release_notes_draft(metadata, commits, None, options.include_attribution);
        let overview = generate_press_kit(metadata, options.include_attribution);
        let session = ExportSession {
            step: ExportStep::CreateDirs,
            output_dir: options.output_dir.clone(),
            svg,
            readme,
            notes,
            overview,
            files: Vec::new(),
        };
        proof {
            assert(spec_views(session.files@) =~~= spec_export_files().take(0));
        }
        Ok(session)
    }

    /// The action the host must perform at the current step.
    pub fn current_action(&self) -> (a: ExportAction)
        ensures
            match self.step {
                ExportStep::CreateDirs => (a matches ExportAction::CreateDirs { path } && path@
                    == self.output_dir@ + "/share-kit/press-kit/screenshots"@),
                ExportStep::WriteSvg => (a matches ExportAction::WriteText { rel_path, content }
                    && rel_path@ == "repo-card.svg"@ && content@ == self.svg@),
                ExportStep::RasterizePng => (a matches ExportAction::RasterizePng { svg, width }
                    && svg@ == self.svg@ && width == 1200u32),
                ExportStep::WritePng => (a matches ExportAction::WritePng { rel_path } && rel_path@
                    == "repo-card.png"@),
                ExportStep::WriteReadme => (a matches ExportAction::WriteText { rel_path, content }
                    && rel_path@ == "README-snippet.md"@ && content@ == self.readme@),
                ExportStep::WriteNotes => (a matches ExportAction::WriteText { rel_path, content }
                    && rel_path@ == "release-notes-draft.md"@ && content@ == self.notes@),
                ExportStep::WriteOverview => (a matches ExportAction::WriteText {
                    rel_path,
                    content,
                } && rel_path@ == "press-kit/overview.md"@ && content@ == self.overview@),
                ExportStep::WritePlaceholder => (a matches ExportAction::WriteText {
                    rel_path,
                    content,
                } && rel_path@ == "press-kit/screenshots/.gitkeep"@ && content@
                    == Seq::<char>::empty()),
                ExportStep::Done => (a matches ExportAction::Finished),
            },
    {
        match self.step {
            ExportStep::CreateDirs => {
                let mut path = self.output_dir.clone();
                path.append("/share-kit/press-kit/screenshots");
                ExportAction::CreateDirs { path }
            },
            ExportStep::WriteSvg => ExportAction::WriteText {
                rel_path: String::from_str("repo-card.svg"),
                content: self.svg.clone(),
            },
            ExportStep::RasterizePng => ExportAction::RasterizePng {
                svg: self.svg.clone(),
                width: 1200,
            },
            ExportStep::WritePng => ExportAction::WritePng {
                rel_path: String::from_str("repo-card.png"),
            },
            ExportStep::WriteReadme => ExportAction::WriteText {
                rel_path: String::from_str("README-snippet.md"),
                content: self.readme.clone(),
            },
            ExportStep::WriteNotes => ExportAction::WriteText {
                rel_path: String::from_str("release-notes-draft.md"),
                content: self.notes.clone(),
            },
            ExportStep::WriteOverview => ExportAction::WriteText {
                rel_path: String::from_str("press-kit/overview.md"),
                content: self.overview.clone(),
            },
            ExportStep::WritePlaceholder => ExportAction::WriteText {
                rel_path: String::from_str("press-kit/screenshots/.gitkeep"),
                content: String::new(),
            },
            ExportStep::Done => ExportAction::Finished,
        }
    }

    /// Records that the host completed the current step: the step advances
    /// in the fixed order, the completed write's path is recorded, and the
    /// artifacts stay as they were.
    pub fn advance_ok(&mut self)
        requires
            old(self).step != ExportStep::Done,
            old(self).wf(),
        ensures
            final(self).wf(),
            final(self).step == spec_next_step(old(self).step),
            final(self).svg == old(self).svg,
            final(self).readme == old(self).readme,
            final(self).notes == old(self).notes,
            final(self).overview == old(self).overview,
            final(self).output_dir == old(self).output_dir,
    {
        match self.step {
            ExportStep::CreateDirs => {
                self.step = ExportStep::WriteSvg;
            },
            ExportStep::WriteSvg => {
                let f = String::from_str("repo-card.svg");
                proof {
                    lemma_record_next_file(old(self).files@, f, 0);
                }
                self.files.push(f);
                self.step = ExportStep::RasterizePng;
            },
            ExportStep::RasterizePng => {
                self.step = ExportStep::WritePng;
            },
            ExportStep::WritePng => {
                let f = String::from_str("repo-card.png");
                proof {
                    lemma_record_next_file(old(self).files@, f, 1);
                }
                self.files.push(f);
                self.step = ExportStep::WriteReadme;
            },
            ExportStep::WriteReadme => {
                let f = String::from_str("README-snippet.md");
                proof {
                    lemma_record_next_file(old(self).files@, f, 2);
                }
                self.files.push(f);
                self.step = ExportStep::WriteNotes;
            },
            ExportStep::WriteNotes => {
                let f = String::from_str("release-notes-draft.md");
                proof {
                    lemma_record_next_file(old(self).files@, f, 3);
                }
                self.files.push(f);
                self.step = ExportStep::WriteOverview;
            },
            ExportStep::WriteOverview => {
                let f = String::from_str("press-kit/overview.md");
                proof {
                    lemma_record_next_file(old(self).files@, f, 4);
                }
                self.files.push(f);
                self.step = ExportStep::WritePlaceholder;
            },
            ExportStep::WritePlaceholder => {
                let f = String::from_str("press-kit/screenshots/.gitkeep");
                proof {
                    lemma_record_next_file(old(self).files@, f, 5);
                }
                self.files.push(f);
                self.step = ExportStep::Done;
            },
            ExportStep::Done => {
            },
        }
    }

    /// Builds the error text for a failure of the current step: the step's
    /// fixed prefix, then the cause the host reported.
    pub fn fail(&self, cause: &str) -> (e: String)
        ensures
            e@ == spec_step_error_prefix(self.step) + cause@,
    {
        let mut e = match self.step {
            ExportStep::CreateDirs => String::from_str("Failed to create directories: "),
            ExportStep::WriteSvg => String::from_str("Failed to write SVG: "),
            ExportStep::RasterizePng => String::new(),
            ExportStep::WritePng => String::from_str("Failed to write PNG: "),
            ExportStep::WriteReadme => String::from_str("Failed to write README snippet: "),
            ExportStep::WriteNotes => String::from_str("Failed to write release notes: "),
            ExportStep::WriteOverview => String::from_str("Failed to write press kit: "),
            ExportStep::WritePlaceholder => String::from_str("Failed to write .gitkeep: "),
            ExportStep::Done => String::new(),
        };
        e.append(cause);
        proof {
            assert(e@ =~= spec_step_error_prefix(self.step) + cause@);
        }
        e
    }

    /// Whether every step has completed.
    pub fn is_done(&self) -> (r: bool)
        ensures
            r == (self.step == ExportStep::Done),
    {
        match self.step {
            ExportStep::Done => true,
            _ => false,
        }
    }

    /// The result of a fully completed export: success, the resolved output
    /// path, and exactly the six artifact paths in write order.
    pub fn finish(&self) -> (r: ExportResult)
        requires
            self.step == ExportStep::Done,
            self.wf(),
        ensures
            r.success,
            r.error is None,
            spec_views(r.files@) == spec_export_files(),
            r.output_path@ == self.output_dir@ + "/share-kit"@,
    {
        let mut output_path = self.output_dir.clone();
        output_path.append("/share-kit");
        let mut files: Vec<String> = Vec::new();
        let mut i: usize = 0;
        while i < self.files.len()
            invariant
                i <= self.files@.len(),
                files@ == self.files@.take(i as int),
            decreases self.files@.len() - i,
        {
            files.push(self.files[i].clone());
            proof {
                assert(files@ =~= self.files@.take(i as int + 1));
            }
            i = i + 1;
        }
        proof {
            assert(self.files@.take(self.files@.len() as int) =~= self.files@);
            assert(spec_export_files().take(spec_files_done(ExportStep::Done))
                =~= spec_export_files());
        }
        ExportResult { success: true, output_path, files, error: None }
    }
}

} // verus!
