//! Live progress feedback for the benchmark loop, through the `indicatif`
//! crate.  Drawing a bar is a side effect on the terminal; nothing about it
//! is assumed, so every wrapper here is contract-free.

use vstd::prelude::*;

verus! {

#[verifier::external_type_specification]
#[verifier::external_body]
pub struct ExProgressBar(indicatif::ProgressBar);

#[verifier::external_type_specification]
#[verifier::external_body]
pub struct ExProgressStyle(indicatif::ProgressStyle);

/// Relies on indicatif::ProgressStyle::with_template: builds the benchmark
/// bar's drawing style, or reports a malformed template.  The template is
/// fixed here because the template parser panics on placeholder widths
/// beyond its range, and a verified caller must not be able to reach that.
#[verifier::external_body]
pub(crate) fn budget_template_style() -> Option<indicatif::ProgressStyle> {
    indicatif::ProgressStyle::with_template("{spinner} {wide_msg} [{bar:100.green/cyan}]").ok()
}

/// Relies on indicatif::ProgressStyle::progress_chars: sets the characters
/// used to draw the bar.  The character string is fixed here because the
/// call panics on fewer than two grapheme clusters, and a verified caller
/// must not be able to reach that.
#[verifier::external_body]
pub(crate) fn style_progress_chars(style: indicatif::ProgressStyle) -> indicatif::ProgressStyle {
    style.progress_chars("=>-")
}

/// Relies on indicatif::ProgressBar::new: a bar whose full length is `len`.
#[verifier::external_body]
pub(crate) fn progress_new(len: u64) -> indicatif::ProgressBar {
    indicatif::ProgressBar::new(len)
}

/// Relies on indicatif::ProgressBar::set_style.
#[verifier::external_body]
pub(crate) fn progress_set_style(bar: &indicatif::ProgressBar, style: indicatif::ProgressStyle) {
    bar.set_style(style);
}

/// Relies on indicatif::ProgressBar::set_message.
#[verifier::external_body]
pub(crate) fn progress_set_message(bar: &indicatif::ProgressBar, msg: String) {
    bar.set_message(msg);
}

/// Relies on indicatif::ProgressBar::set_position.
#[verifier::external_body]
pub(crate) fn progress_set_position(bar: &indicatif::ProgressBar, pos: u64) {
    bar.set_position(pos);
}

} // verus!
