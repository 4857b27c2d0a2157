use vstd::prelude::*;
use crate::color::{color_of, valid_hex_notation, SRGBColor};

verus! {

/// Builds the palette from its source lines: each line is parsed as a
/// `#RRGGBB` notation and kept, with its original text, in source order,
/// duplicates included. The first invalid line fails the whole
/// construction and is reported by its position; an empty input yields an
/// empty palette.
pub fn build_palette(lines: &Vec<String>) -> (res: Result<
    Vec<(SRGBColor, String)>,
    usize,
>)
    ensures
        match res {
            Ok(p) => {
                &&& p@.len() == lines@.len()
                &&& forall|i: int|
                    0 <= i < lines@.len() ==> valid_hex_notation(#[trigger] lines@[i]@)
                &&& forall|i: int|
                    0 <= i < p@.len() ==> (#[trigger] p@[i]).0 == color_of(lines@[i]@)
                        && p@[i].1@ == lines@[i]@
            },
            Err(j) => {
                &&& j < lines@.len()
                &&& !valid_hex_notation(lines@[j as int]@)
                &&& forall|i: int| 0 <= i < j ==> valid_hex_notation(#[trigger] lines@[i]@)
            },
        },
{
    let mut palette: Vec<(SRGBColor, String)> = Vec::new();
    let mut i: usize = 0;
    while i < lines.len()
        invariant
            i <= lines@.len(),
            palette@.len() == i,
            forall|k: int| 0 <= k < i ==> valid_hex_notation(#[trigger] lines@[k]@),
            forall|k: int|
                0 <= k < i ==> (#[trigger] palette@[k]).0 == color_of(lines@[k]@)
                    && palette@[k].1@ == lines@[k]@,
        decreases lines@.len() - i,
    {
        let line = &lines[i];
        match SRGBColor::from_hex_triplet(line.as_str()) {
            Some(c) => {
                palette.push((c, line.clone()));
            },
            None => {
                return Err(i);
            },
        }
        i += 1;
    }
    Ok(palette)
}

} // verus!
