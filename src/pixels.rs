use vstd::prelude::*;

verus! {

/// One colour with its transparency.
#[derive(PartialEq, Eq, Structural, Clone, Copy, Debug)]
pub struct Rgba {
    pub r: u8,
    pub g: u8,
    pub b: u8,
    pub a: u8,
}

/// The colours of a quantised image: each pixel's palette entry in turn.
/// `None` where a pixel names an entry that the palette does not have.
pub fn expand_palette(palette: &Vec<Rgba>, indices: &Vec<u8>) -> (r: Option<Vec<Rgba>>)
    ensures
        r is Some <==> forall|i: int| 0 <= i < indices.len() ==> (#[trigger] indices[i]) < palette.len(),
        r matches Some(colors) ==> colors.len() == indices.len() && forall|i: int|
            0 <= i < indices.len() ==> #[trigger] colors[i] == palette[indices[i] as int],
{
    let mut colors: Vec<Rgba> = Vec::new();
    let mut i: usize = 0;
    while i < indices.len()
        invariant
            i <= indices.len(),
            colors.len() == i,
            forall|j: int| 0 <= j < i ==> (#[trigger] indices[j]) < palette.len(),
            forall|j: int| 0 <= j < i ==> #[trigger] colors[j] == palette[indices[j] as int],
        decreases indices.len() - i,
    {
        let k = indices[i] as usize;
        if k >= palette.len() {
            return None;
        }
        colors.push(palette[k]);
        i = i + 1;
    }
    Some(colors)
}

} // verus!
