use vstd::prelude::*;

verus! {

/// The program bytes of an image taken without its header: up to 16 KiB from byte 10 on.
pub struct Rom {
    pub rom: Vec<u8>,
}

/// The bytes of `b` from offset 10, at most 16 KiB of them.
pub open spec fn program_window(b: Seq<u8>) -> Seq<u8> {
    if b.len() <= 10 {
        Seq::empty()
    } else if b.len() <= 10 + 0x4000 {
        b.subrange(10, b.len() as int)
    } else {
        b.subrange(10, 10 + 0x4000int)
    }
}

impl Rom {
    /// Keeps the program bytes of an image that has been read into `bytes`.
    pub fn read_from_file(bytes: &[u8]) -> (r: Rom)
        ensures
            r.rom@ == program_window(bytes@),
    {
        let n = bytes.len();
        let mut rom: Vec<u8> = Vec::new();
        if n > 10 {
            let end = if n <= 10 + 0x4000 { n } else { 10 + 0x4000 };
            let mut i: usize = 10;
            while i < end
                invariant
                    n == bytes@.len(),
                    10 < n,
                    end <= n,
                    10 <= i <= end,
                    rom@ == bytes@.subrange(10, i as int),
                decreases end - i,
            {
                rom.push(bytes[i]);
                i += 1;
                proof {
                    assert(rom@ =~= bytes@.subrange(10, i as int));
                }
            }
            proof {
                assert(rom@ =~= program_window(bytes@));
            }
        }
        Rom { rom }
    }
}

} // verus!
