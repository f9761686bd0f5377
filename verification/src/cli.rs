//! The command line of the emulator: which argument names the output
//! directory, which arguments name ROM files, and which part of a ROM file
//! is the image that the machine is built from.
//!
//! The functions here decide on plain values; reading the arguments and the
//! files is left to the program.
use vstd::prelude::*;

verus! {

/// The size of the ROM of the default machine, and the least size of a ROM
/// file: 32 KiB.
pub const ROM_SIZE: usize = 0x8000;

/// The arguments as sequences of characters.
pub open spec fn texts(args: Seq<String>) -> Seq<Seq<char>> {
    args.map_values(|arg: String| arg@)
}

/// Whether `arg` is the flag that announces the output directory.
pub open spec fn is_output_flag(arg: Seq<char>) -> bool {
    arg.len() == 2 && arg[0] == '-' && arg[1] == 'o'
}

/// Whether `arg` starts like a flag.
pub open spec fn is_flag(arg: Seq<char>) -> bool {
    arg.len() > 0 && arg[0] == '-'
}

/// Whether the output flag stands at `pos`, followed by its value and by at
/// least one more argument.
pub open spec fn output_flag_at(args: Seq<Seq<char>>, pos: int) -> bool {
    0 <= pos && pos + 2 < args.len() && is_output_flag(args[pos])
}

/// The positions, from `from` on, of the arguments that name ROM files: an
/// argument that starts like a flag is passed over together with the
/// argument behind it. `skipping` says that the argument at `from` is such a
/// one behind a flag.
pub open spec fn rom_positions(args: Seq<Seq<char>>, from: int, skipping: bool) -> Seq<usize>
    decreases args.len() - from,
{
    if from < 0 || from >= args.len() {
        Seq::empty()
    } else if is_flag(args[from]) || skipping {
        rom_positions(args, from + 1, !skipping)
    } else {
        seq![from as usize] + rom_positions(args, from + 1, false)
    }
}

fn starts_like_a_flag(arg: &str) -> (res: bool)
    ensures
        res == is_flag(arg@),
{
    arg.unicode_len() > 0 && arg.get_char(0) == '-'
}

fn names_the_output(arg: &str) -> (res: bool)
    ensures
        res == is_output_flag(arg@),
{
    arg.unicode_len() == 2 && arg.get_char(0) == '-' && arg.get_char(1) == 'o'
}

/// The position of the value of the output flag: the argument behind the
/// first `-o` that is followed by a value and by at least one more argument.
pub fn output_value_position(args: &Vec<String>) -> (res: Option<usize>)
    ensures
        match res {
            Some(at) => at >= 1 && output_flag_at(texts(args@), at - 1) && forall|p: int|
                0 <= p < at - 1 ==> !output_flag_at(texts(args@), p),
            None => forall|p: int| !output_flag_at(texts(args@), p),
        },
{
    if args.len() < 2 {
        return None;
    }
    let mut pos: usize = 0;
    while pos < args.len() - 2
        invariant
            args@.len() >= 2,
            pos <= args@.len() - 2,
            forall|p: int| 0 <= p < pos ==> !output_flag_at(texts(args@), p),
        decreases args@.len() - pos,
    {
        if names_the_output(args[pos].as_str()) {
            return Some(pos + 1);
        }
        pos += 1;
    }
    None
}

/// The positions of the arguments that name ROM files, in order.
pub fn rom_file_positions(args: &Vec<String>) -> (res: Vec<usize>)
    ensures
        res@ == rom_positions(texts(args@), 0, false),
{
    let mut found: Vec<usize> = Vec::new();
    let mut skipping = false;
    let mut pos: usize = 0;
    while pos < args.len()
        invariant
            pos <= args@.len(),
            found@ + rom_positions(texts(args@), pos as int, skipping) == rom_positions(
                texts(args@),
                0,
                false,
            ),
        decreases args@.len() - pos,
    {
        let ghost before = found@;
        if starts_like_a_flag(args[pos].as_str()) || skipping {
            skipping = !skipping;
        } else {
            found.push(pos);
            assert(found@ + rom_positions(texts(args@), pos + 1, false) =~= before + (seq![
                pos,
            ] + rom_positions(texts(args@), pos + 1, false)));
        }
        pos += 1;
    }
    assert(found@ + Seq::<usize>::empty() =~= found@);
    found
}

/// What is wrong with a ROM file.
#[derive(Debug, Clone, Copy, PartialEq, Eq, Structural)]
pub enum RomFileError {
    /// The file is shorter than 32 KiB.
    Malformed,
    /// What lies behind the first 32 KiB of the file is more than the ROM
    /// holds.
    TooLong(usize),
}

/// The part of a ROM file of `file_len` bytes that is the ROM image: what
/// lies behind its first 32 KiB, which must be no more than 32 KiB. The image
/// is given by the position of its first byte and of the byte behind its
/// last.
pub fn rom_image_range(file_len: usize) -> (res: Result<(usize, usize), RomFileError>)
    ensures
        file_len < ROM_SIZE ==> res == Err::<(usize, usize), RomFileError>(
            RomFileError::Malformed,
        ),
        ROM_SIZE <= file_len <= 2 * ROM_SIZE ==> res == Ok::<(usize, usize), RomFileError>(
            (ROM_SIZE, file_len),
        ),
        file_len > 2 * ROM_SIZE ==> res == Err::<(usize, usize), RomFileError>(
            RomFileError::TooLong((file_len - ROM_SIZE) as usize),
        ),
{
    if file_len < ROM_SIZE {
        Err(RomFileError::Malformed)
    } else if file_len - ROM_SIZE > ROM_SIZE {
        Err(RomFileError::TooLong(file_len - ROM_SIZE))
    } else {
        Ok((ROM_SIZE, file_len))
    }
}

} // verus!
