//! Assembly of the 4096-byte memory image: program bytes from address
//! 0x200, font data from address 0.

use vstd::prelude::*;
use crate::font::{font_table, spec_font_data};

verus! {

/// Lays a program out in a fresh memory image: its bytes from address 512
/// upward, zero everywhere else.
pub fn file_data_to_rom_layout(data: Vec<u8>) -> (image: [u8; 4096])
    requires
        data@.len() <= 4096 - 512,
    ensures
        forall|j: int| 0 <= j < 512 ==> image@[j] == 0u8,
        forall|j: int| 512 <= j < 512 + data@.len() ==> image@[j] == data@[j - 512],
        forall|j: int| 512 + data@.len() <= j < 4096 ==> image@[j] == 0u8,
{
    let mut resulting_array: [u8; 4096] = [0; 4096];
    let mut array_pos: usize = 512;
    let mut k: usize = 0;
    while k < data.len()
        invariant
            k <= data@.len(),
            data@.len() <= 4096 - 512,
            array_pos == 512 + k,
            forall|j: int| 0 <= j < 512 ==> resulting_array@[j] == 0u8,
            forall|j: int| 512 <= j < 512 + k ==> resulting_array@[j] == data@[j - 512],
            forall|j: int| 512 + k <= j < 4096 ==> resulting_array@[j] == 0u8,
        decreases data@.len() - k,
    {
        resulting_array[array_pos] = data[k];
        array_pos += 1;
        k += 1;
    }
    resulting_array
}

/// Writes the eighty font bytes over the start of a memory image; the rest
/// of the image stays as it was.
pub fn fill_font_data(data: &mut [u8; 4096])
    ensures
        forall|j: int| 0 <= j < 80 ==> final(data)@[j] == spec_font_data()[j],
        forall|j: int| 80 <= j < 4096 ==> final(data)@[j] == old(data)@[j],
{
    let font = font_table();
    let mut k: usize = 0;
    while k < 80
        invariant
            k <= 80,
            font@ == spec_font_data(),
            forall|j: int| 0 <= j < k ==> data@[j] == spec_font_data()[j],
            forall|j: int| k <= j < 4096 ==> data@[j] == old(data)@[j],
        decreases 80 - k,
    {
        data[k] = font[k];
        k += 1;
    }
}

} // verus!
