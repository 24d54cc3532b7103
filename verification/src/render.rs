//! Turning a badge's SVG text into what is served: the text written back by
//! usvg with its text turned into paths, or a PNG picture drawn by resvg.
//! Both read the fonts of a font database, loaded from disk, so nothing is
//! claimed of the text or picture they give.
use std::sync::Arc;
use vstd::prelude::*;

verus! {

/// usvg's font database.
#[verifier::external_type_specification]
#[verifier::external_body]
pub struct ExFontDatabase(usvg::fontdb::Database);

/// A parsed SVG document.
#[verifier::external_type_specification]
#[verifier::external_body]
pub struct ExSvgTree(usvg::Tree);

/// Why usvg could not parse a document.
#[verifier::external_type_specification]
#[verifier::external_body]
pub struct ExSvgError(usvg::Error);

/// Calls `usvg::Tree::from_str` with the fonts of `fontdb`. Whether it
/// parses and what it holds is not stated.
#[verifier::external_body]
fn parse_svg(svg: &str, fontdb: &Arc<usvg::fontdb::Database>) -> (res: Result<usvg::Tree, usvg::Error>) {
    usvg::Tree::from_str(svg, &usvg::Options { fontdb: fontdb.clone(), ..Default::default() })
}

/// Calls `usvg::Tree::to_string` with single quotes and text written as
/// paths. What it writes is not stated.
#[verifier::external_body]
fn write_svg(tree: &usvg::Tree) -> (res: String) {
    tree.to_string(&usvg::WriteOptions { use_single_quote: true, preserve_text: false, ..Default::default() })
}

/// Calls `tiny_skia::Pixmap::new` at the tree's size, `resvg::render` into
/// it and `Pixmap::encode_png`; none when the pixmap cannot be made or the
/// PNG cannot be encoded. What it draws is not stated.
#[verifier::external_body]
fn draw_png(tree: &usvg::Tree) -> (res: Option<Vec<u8>>) {
    let size = tree.size().to_int_size();
    let mut pixmap = resvg::tiny_skia::Pixmap::new(size.width(), size.height())?;
    resvg::render(tree, resvg::tiny_skia::Transform::default(), &mut pixmap.as_mut());
    pixmap.encode_png().ok()
}

/// Why a badge could not be served.
#[derive(Debug, Clone, Copy, PartialEq, Eq, Structural)]
pub enum RenderError {
    /// usvg could not parse the badge's SVG text.
    Parse,
    /// The picture could not be drawn or encoded.
    Draw,
}

/// The badge's SVG text as served: parsed and written back by usvg with
/// the fonts of `fontdb`. Fails only when the text cannot be parsed.
pub fn postprocess_svg(svg: &str, fontdb: &Arc<usvg::fontdb::Database>) -> (res: Result<
    String,
    RenderError,
>)
    ensures
        res matches Err(e) ==> e == RenderError::Parse,
{
    match parse_svg(svg, fontdb) {
        Ok(tree) => Ok(write_svg(&tree)),
        Err(_) => Err(RenderError::Parse),
    }
}

/// The badge's SVG text drawn as a PNG picture with the fonts of `fontdb`.
pub fn postprocess_svg_to_png(svg: &str, fontdb: &Arc<usvg::fontdb::Database>) -> (res: Result<
    Vec<u8>,
    RenderError,
>)
    ensures
        res matches Err(e) ==> e == RenderError::Parse || e == RenderError::Draw,
{
    match parse_svg(svg, fontdb) {
        Ok(tree) => match draw_png(&tree) {
            Some(png) => Ok(png),
            None => Err(RenderError::Draw),
        },
        Err(_) => Err(RenderError::Parse),
    }
}

} // verus!
