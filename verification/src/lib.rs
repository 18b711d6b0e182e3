mod advisory;
mod classify;
mod descriptor;
mod document;
mod report;
mod resolve;

pub use advisory::advisories_spec;
pub use advisory::advisory_message;
pub use advisory::advisory_text;
pub use advisory::startup_advisories;
pub use advisory::xdg_recommended_at;
pub use advisory::xdg_var_count;
pub use advisory::xdg_var_name_at;
pub use classify::Decision;
pub use classify::FilterConfig;
pub use classify::decide;
pub use classify::decide_spec;
pub use classify::lemma_absent_shown_iff_skip_ok;
pub use classify::lemma_present_movable_always_shown;
pub use classify::lemma_present_unmovable_shown_iff_not_skipped;
pub use classify::lemma_row_a_inactive_without_skip_ok;
pub use descriptor::Descriptor;
pub use descriptor::DescriptorModel;
pub use descriptor::build_descriptor;
pub use descriptor::default_help;
pub use descriptor::default_name;
pub use descriptor::report_line;
pub use document::ParseError;
pub use document::array_content;
pub use document::bool_content;
pub use document::descriptor_from_entry;
pub use document::descriptors_of_entries;
pub use document::document_descriptors;
pub use document::document_files;
pub use document::document_model;
pub use document::entries_descriptors;
pub use document::entry_has_path;
pub use document::entry_model;
pub use document::entry_movable;
pub use document::entry_string;
pub use document::has_key;
pub use document::is_array;
pub use document::is_bool;
pub use document::is_string;
pub use document::json_of;
pub use document::json_wellformed;
pub use document::key_value;
pub use document::lemma_no_files_no_descriptors;
pub use document::parse_documents;
pub use document::parse_error_text;
pub use document::string_content;
pub use report::bash_marker;
pub use report::lemma_strip_idempotent;
pub use report::lemma_strip_no_markers_identity;
pub use report::line_of;
pub use report::occurs;
pub use report::plain_marker;
pub use report::remove_all;
pub use report::render_line;
pub use report::strip_help_markers;
pub use report::strip_markers_spec;
pub use resolve::ExistenceProbeOutcome;
pub use resolve::ExpandError;
pub use resolve::ResolvedPath;
pub use resolve::counts_as_existing;
pub use resolve::plain_path;
pub use resolve::resolve_raw_path;
