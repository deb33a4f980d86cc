//! The memory-mapped hardware registers of the console, by address:
//! the PPU and APU ports and the controller ports, each with its
//! conventional symbolic name.

use vstd::prelude::*;

verus! {

/// The symbolic name wired to a memory address, if the address is a
/// hardware register.
pub open spec fn mapped_register(address: u16) -> Option<Seq<char>> {
    if address == 0x2000 {
        Some("PPUCTRL"@)
    } else if address == 0x2001 {
        Some("PPUMASK"@)
    } else if address == 0x2002 {
        Some("PPUSTATUS"@)
    } else if address == 0x2003 {
        Some("OAMADDR"@)
    } else if address == 0x2004 {
        Some("OAMDATA"@)
    } else if address == 0x2005 {
        Some("PPUSCROLL"@)
    } else if address == 0x2006 {
        Some("PPUADDR"@)
    } else if address == 0x2007 {
        Some("PPUDATA"@)
    } else if address == 0x4014 {
        Some("OAMDMA"@)
    } else if address == 0x4000 {
        Some("SQ1_VOL"@)
    } else if address == 0x4001 {
        Some("SQ1_SWEEP"@)
    } else if address == 0x4002 {
        Some("SQ1_LO"@)
    } else if address == 0x4003 {
        Some("SQ1_HI"@)
    } else if address == 0x4004 {
        Some("SQ2_VOL"@)
    } else if address == 0x4005 {
        Some("SQ2_SWEEP"@)
    } else if address == 0x4006 {
        Some("SQ2_LO"@)
    } else if address == 0x4007 {
        Some("SQ2_HI"@)
    } else if address == 0x4008 {
        Some("TRI_LINEAR"@)
    } else if address == 0x400a {
        Some("TRI_LO"@)
    } else if address == 0x400b {
        Some("TRI_HI"@)
    } else if address == 0x400c {
        Some("NOISE_VOL"@)
    } else if address == 0x400e {
        Some("NOISE_LO"@)
    } else if address == 0x400f {
        Some("NOISE_HI"@)
    } else if address == 0x4010 {
        Some("DMC_FREQ"@)
    } else if address == 0x4011 {
        Some("DMC_RAW"@)
    } else if address == 0x4012 {
        Some("DMC_START"@)
    } else if address == 0x4013 {
        Some("DMC_LEN"@)
    } else if address == 0x4015 {
        Some("SND_CHN"@)
    } else if address == 0x4016 {
        Some("JOY1"@)
    } else if address == 0x4017 {
        Some("JOY2"@)
    } else {
        None
    }
}

/// Every register symbol is at most ten characters long.
pub proof fn lemma_mapped_register_len()
    ensures
        forall|a: u16| #[trigger] mapped_register(a) is Some ==> 1 <= mapped_register(
            a)->Some_0.len() <= 10,
{
    assert forall|a: u16| #[trigger] mapped_register(a) is Some implies 1 <= mapped_register(
        a)->Some_0.len() <= 10 by {
        reveal_strlit("PPUCTRL");
        reveal_strlit("PPUMASK");
        reveal_strlit("PPUSTATUS");
        reveal_strlit("OAMADDR");
        reveal_strlit("OAMDATA");
        reveal_strlit("PPUSCROLL");
        reveal_strlit("PPUADDR");
        reveal_strlit("PPUDATA");
        reveal_strlit("OAMDMA");
        reveal_strlit("SQ1_VOL");
        reveal_strlit("SQ1_SWEEP");
        reveal_strlit("SQ1_LO");
        reveal_strlit("SQ1_HI");
        reveal_strlit("SQ2_VOL");
        reveal_strlit("SQ2_SWEEP");
        reveal_strlit("SQ2_LO");
        reveal_strlit("SQ2_HI");
        reveal_strlit("TRI_LINEAR");
        reveal_strlit("TRI_LO");
        reveal_strlit("TRI_HI");
        reveal_strlit("NOISE_VOL");
        reveal_strlit("NOISE_LO");
        reveal_strlit("NOISE_HI");
        reveal_strlit("DMC_FREQ");
        reveal_strlit("DMC_RAW");
        reveal_strlit("DMC_START");
        reveal_strlit("DMC_LEN");
        reveal_strlit("SND_CHN");
        reveal_strlit("JOY1");
        reveal_strlit("JOY2");
    }
}

/// Look up the symbolic name of a memory-mapped hardware register.
pub fn get_mapped_register(address: u16) -> (r: Option<String>)
    ensures
        r is Some <==> mapped_register(address) is Some,
        r matches Some(s) ==> mapped_register(address) == Some(s@),
{
    match address {
        0x2000 => Some(String::from_str("PPUCTRL")),
        0x2001 => Some(String::from_str("PPUMASK")),
        0x2002 => Some(String::from_str("PPUSTATUS")),
        0x2003 => Some(String::from_str("OAMADDR")),
        0x2004 => Some(String::from_str("OAMDATA")),
        0x2005 => Some(String::from_str("PPUSCROLL")),
        0x2006 => Some(String::from_str("PPUADDR")),
        0x2007 => Some(String::from_str("PPUDATA")),
        0x4014 => Some(String::from_str("OAMDMA")),
        0x4000 => Some(String::from_str("SQ1_VOL")),
        0x4001 => Some(String::from_str("SQ1_SWEEP")),
        0x4002 => Some(String::from_str("SQ1_LO")),
        0x4003 => Some(String::from_str("SQ1_HI")),
        0x4004 => Some(String::from_str("SQ2_VOL")),
        0x4005 => Some(String::from_str("SQ2_SWEEP")),
        0x4006 => Some(String::from_str("SQ2_LO")),
        0x4007 => Some(String::from_str("SQ2_HI")),
        0x4008 => Some(String::from_str("TRI_LINEAR")),
        0x400a => Some(String::from_str("TRI_LO")),
        0x400b => Some(String::from_str("TRI_HI")),
        0x400c => Some(String::from_str("NOISE_VOL")),
        0x400e => Some(String::from_str("NOISE_LO")),
        0x400f => Some(String::from_str("NOISE_HI")),
        0x4010 => Some(String::from_str("DMC_FREQ")),
        0x4011 => Some(String::from_str("DMC_RAW")),
        0x4012 => Some(String::from_str("DMC_START")),
        0x4013 => Some(String::from_str("DMC_LEN")),
        0x4015 => Some(String::from_str("SND_CHN")),
        0x4016 => Some(String::from_str("JOY1")),
        0x4017 => Some(String::from_str("JOY2")),
        _ => None,
    }
}

} // verus!
