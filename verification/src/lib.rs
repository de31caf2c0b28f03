//! Plan drawings of a steel column base: the H-section outline, the base
//! plate, the anchor-bolt marks and a block of labels, computed in exact
//! rational coordinates and collected layer by layer.

use vstd::prelude::*;

pub mod args;
pub mod bolt;
pub mod column;
pub mod document;
pub mod input;
pub mod label;
pub mod number;
pub mod output;
pub mod output_util;
pub mod path;
pub mod plate;

verus! {

/// The file name without its directory and its extension.
pub fn remove_extension(file_name_with_extension: &str) -> (res: Result<
    &str,
    output_util::DrawingError,
>)
    ensures
        match path::file_stem_of(file_name_with_extension@) {
            Some(stem) => res matches Ok(s) && s@ == stem,
            None => res == Err::<&str, output_util::DrawingError>(
                output_util::DrawingError::NoFileStem,
            ),
        },
{
    match path::file_stem(file_name_with_extension) {
        Some(stem) => Ok(stem),
        None => Err(output_util::DrawingError::NoFileStem),
    }
}

/// The name of the drawing file for a stem: the stem followed by `.dxf`.
pub fn output_name(stem: &str) -> (name: String)
    ensures
        name@ == stem@ + ".dxf"@,
{
    let mut name = String::new();
    name.append(stem);
    name.append(".dxf");
    assert(name@ =~= stem@ + ".dxf"@);
    name
}

/// Makes the drawing that the command line asks for, from the description
/// that was read from its input file. The drawing is to be stored under
/// the stem of the input file's name followed by `.dxf`; where that name
/// has no stem, nothing is made.
pub fn run(args: &args::Args, input: input::SteelColumnDrawing) -> (res: Result<
    (String, output_util::Sheet),
    output_util::DrawingError,
>)
    requires
        input@.has_bolts(),
    ensures
        match path::file_stem_of(args.input_file@) {
            Some(stem) => res matches Ok(out) && out.0@ == stem + ".dxf"@ && out.1@
                == output::rendering(input@),
            None => res matches Err(e) && e == output_util::DrawingError::NoFileStem,
        },
{
    let stem = remove_extension(args.input_file.as_str())?;
    let output_file = output_name(stem);
    let sheet = output::write(input)?;
    Ok((output_file, sheet))
}

} // verus!
