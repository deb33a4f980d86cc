//! The graphics-data block: decode its two-bitplane tiles into
//! gray-scale pixel buffers, one 128-by-128 image per bank.

use vstd::prelude::*;

use crate::block::{Block, BlockModel};
use crate::disassembler::{image_chr_size, image_magic_ok, image_prg_end};
use crate::error::NesError;
use crate::header::{header_parsed, header_wf, HeaderModel, NesHeader, CHR_ROM_BANK_SIZE,
    CHR_ROM_UNIT_SIZE, HEADER_SIZE, PRG_ROM_UNIT_SIZE, TRAINER_SIZE};
use crate::util::{dec_seq, name_of_path, path_to_name, usize_to_string};

verus! {

/// One pixel: a red, green and blue byte.
pub type Rgb = (u8, u8, u8);

/// The four gray levels a two-bit tile value maps to.
pub open spec fn color_scheme(i: int) -> Rgb {
    if i == 0 {
        (0u8, 0u8, 0u8)
    } else if i == 1 {
        (126u8, 126u8, 126u8)
    } else if i == 2 {
        (189u8, 189u8, 189u8)
    } else {
        (255u8, 255u8, 255u8)
    }
}

/// The color of two bitplane bits: the right bit weighs double.
pub fn bits_to_rgb(left: u8, right: u8) -> (r: Rgb)
    requires
        left <= 1,
        right <= 1,
    ensures
        r == color_scheme(2 * right + left),
{
    let color = right << 1 | left;
    proof {
        assert(right <= 1 && left <= 1 ==> (right << 1 | left) == 2 * right + left)
            by (bit_vector);
    }
    match color {
        0 => (0, 0, 0),
        1 => (126, 126, 126),
        2 => (189, 189, 189),
        _ => (255, 255, 255),
    }
}

/// The width and height of a decoded bank image, in pixels.
pub const IMG_SIDE: usize = 128;

/// The width and height of one tile, in pixels.
pub const TILE_SIDE: usize = 8;

/// The tile a pixel position belongs to: tiles tile the image row by
/// row, sixteen to a tile row.
pub open spec fn pos_tile(pos: int) -> int {
    ((pos / 128) / 8) * 16 + (pos % 128) / 8
}

/// The pixel row inside its tile.
pub open spec fn pos_y(pos: int) -> int {
    (pos / 128) % 8
}

/// The pixel column inside its tile.
pub open spec fn pos_bit(pos: int) -> int {
    (pos % 128) % 8
}

/// The color of one pixel of a tile: bit `7 - bit` of the tile's
/// low-plane byte for row `y`, doubled by the matching high-plane bit
/// eight bytes later.
pub open spec fn tile_pixel(bank: Seq<u8>, t: int, y: int, bit: int) -> Rgb {
    let lower = bank[16 * t + y];
    let upper = bank[16 * t + y + 8];
    color_scheme(
        2 * ((upper >> ((7 - bit) as u8)) & 1) + ((lower >> ((7 - bit) as u8)) & 1),
    )
}

/// What a pixel holds after a bank is drawn: its tile's color where
/// the bank holds that tile, the old pixel elsewhere.
pub open spec fn bank_pixel(bank: Seq<u8>, old_mem: Seq<Rgb>, pos: int) -> Rgb {
    if pos_tile(pos) < bank.len() / 16 {
        tile_pixel(bank, pos_tile(pos), pos_y(pos), pos_bit(pos))
    } else {
        old_mem[pos]
    }
}

/// Whether a pixel position was already drawn when the walk stands at
/// tile `t`, tile row `y`, tile column `bit`.
pub open spec fn drawn_before(pos: int, t: int, y: int, bit: int) -> bool {
    ||| pos_tile(pos) < t
    ||| (pos_tile(pos) == t && pos_y(pos) < y)
    ||| (pos_tile(pos) == t && pos_y(pos) == y && pos_bit(pos) < bit)
}

/// The pixel buffer in the middle of a bank walk: everything before
/// the walk's position drawn, everything after still as it was.
pub open spec fn fill_state(
    bank: Seq<u8>,
    old_mem: Seq<Rgb>,
    t: int,
    y: int,
    bit: int,
) -> Seq<Rgb> {
    Seq::new(
        16384,
        |pos: int|
            if drawn_before(pos, t, y, bit) {
                tile_pixel(bank, pos_tile(pos), pos_y(pos), pos_bit(pos))
            } else {
                old_mem[pos]
            },
    )
}

/// A pixel position is exactly its tile, tile row and tile column put
/// back together.
proof fn lemma_pos_decompose(pos: int)
    requires
        0 <= pos < 16384,
    ensures
        0 <= pos_tile(pos) < 256,
        0 <= pos_y(pos) < 8,
        0 <= pos_bit(pos) < 8,
        pos == ((pos_tile(pos) / 16) * 8 + pos_y(pos)) * 128 + (pos_tile(pos) % 16) * 8 + pos_bit(
            pos),
{
    let r = pos / 128;
    let c = pos % 128;
    assert(0 <= r < 128 && 0 <= c < 128 && pos == r * 128 + c);
    assert(0 <= r / 8 < 16 && r == (r / 8) * 8 + r % 8 && 0 <= r % 8 < 8);
    assert(0 <= c / 8 < 16 && c == (c / 8) * 8 + c % 8 && 0 <= c % 8 < 8);
    let t = (r / 8) * 16 + c / 8;
    assert(t / 16 == r / 8 && t % 16 == c / 8);
}

/// A tile, tile row and tile column name exactly one pixel position.
proof fn lemma_pos_compose(t: int, y: int, bit: int)
    requires
        0 <= t < 256,
        0 <= y < 8,
        0 <= bit < 8,
    ensures
        ({
            let p = ((t / 16) * 8 + y) * 128 + (t % 16) * 8 + bit;
            &&& 0 <= p < 16384
            &&& pos_tile(p) == t
            &&& pos_y(p) == y
            &&& pos_bit(p) == bit
        }),
{
    let r = (t / 16) * 8 + y;
    let c = (t % 16) * 8 + bit;
    let p = r * 128 + c;
    assert(0 <= t / 16 < 16 && 0 <= t % 16 < 16 && t == (t / 16) * 16 + t % 16);
    assert(0 <= r < 128 && 0 <= c < 128);
    assert(0 <= p < 16384 && p / 128 == r && p % 128 == c);
    assert(r / 8 == t / 16 && r % 8 == y);
    assert(c / 8 == t % 16 && c % 8 == bit);
}

/// Ghost model of a bank image.
pub struct ImageModel {
    pub path: Seq<char>,
    pub mem: Seq<Rgb>,
}

/// A 128-by-128 pixel buffer for one decoded graphics bank, together
/// with the path it will be persisted under.
pub struct NesImage {
    path: String,
    mem: Vec<Rgb>,
}

impl View for NesImage {
    type V = ImageModel;

    closed spec fn view(&self) -> ImageModel {
        ImageModel { path: self.path@, mem: self.mem@ }
    }
}

impl NesImage {
    /// A black image of the fixed size.
    pub fn new(path: &String) -> (r: Self)
        ensures
            r@.path == path@,
            r@.mem.len() == 16384,
            forall|i: int| 0 <= i < 16384 ==> r@.mem[i] == color_scheme(0),
    {
        let mut mem: Vec<Rgb> = Vec::new();
        let mut i: usize = 0;
        while i < 16384
            invariant
                i <= 16384,
                mem@.len() == i,
                forall|j: int| 0 <= j < i ==> mem@[j] == color_scheme(0),
            decreases 16384 - i,
        {
            mem.push((0, 0, 0));
            i = i + 1;
        }
        Self { path: String::from_str(path.as_str()), mem }
    }

    /// Set one pixel.
    fn put_pixel(&mut self, x: usize, y: usize, pixel: Rgb)
        requires
            y * 128 + x < old(self)@.mem.len(),
        ensures
            final(self)@.path == old(self)@.path,
            final(self)@.mem == old(self)@.mem.update(y * 128 + x, pixel),
    {
        let n = self.mem.len();
        proof {
            assert(y * 128 + x < n);
        }
        let pos = y * IMG_SIDE + x;

        self.mem[pos] = pixel;
    }

    /// Draw a whole bank: each 16-byte tile becomes an 8-by-8 patch of
    /// gray pixels, the tiles filling the image row by row.
    pub fn fill_with_bank(&mut self, bank: &[u8])
        requires
            old(self)@.mem.len() == 16384,
            bank@.len() % 16 == 0,
            bank@.len() <= 4096,
        ensures
            final(self)@.path == old(self)@.path,
            final(self)@.mem == Seq::new(
                16384,
                |pos: int| bank_pixel(bank@, old(self)@.mem, pos),
            ),
    {
        let ghost mem0 = self.mem@;
        let ghost path0 = self.path@;
        let ntiles = bank.len() / 16;
        proof {
            assert(ntiles * 16 == bank@.len() && ntiles <= 256);
            assert(self.mem@ =~= fill_state(bank@, mem0, 0, 0, 0)) by {
                assert forall|pos: int| 0 <= pos < 16384 implies !drawn_before(pos, 0, 0, 0) by {
                    lemma_pos_decompose(pos);
                }
            }
        }

        let mut t: usize = 0;
        while t < ntiles
            invariant
                t <= ntiles,
                ntiles == bank@.len() / 16,
                ntiles * 16 == bank@.len(),
                ntiles <= 256,
                self@.path == path0,
                self@.mem.len() == 16384,
                mem0.len() == 16384,
                self@.mem == fill_state(bank@, mem0, t as int, 0, 0),
            decreases ntiles - t,
        {
            let byte = t * 16;
            let mem_x = (t % 16) * TILE_SIDE;
            let mem_y = (t / 16) * TILE_SIDE;
            proof {
                assert(t % 16 < 16 && t / 16 < 16 && byte == t * 16 <= 4080);
            }

            let mut y: usize = 0;
            while y < 8
                invariant
                    y <= 8,
                    t < ntiles,
                    ntiles == bank@.len() / 16,
                    ntiles * 16 == bank@.len(),
                    ntiles <= 256,
                    byte == t * 16,
                    byte + 16 <= bank@.len(),
                    mem_x == (t % 16) * 8,
                    mem_y == (t / 16) * 8,
                    self@.path == path0,
                    self@.mem.len() == 16384,
                    mem0.len() == 16384,
                    self@.mem == fill_state(bank@, mem0, t as int, y as int, 0),
                decreases 8 - y,
            {
                let lower = bank[byte + y];
                let upper = bank[byte + y + 8];

                let mut bit: usize = 0;
                while bit < 8
                    invariant
                        bit <= 8,
                        y < 8,
                        t < ntiles,
                        ntiles == bank@.len() / 16,
                        ntiles * 16 == bank@.len(),
                        ntiles <= 256,
                        byte == t * 16,
                        byte + 16 <= bank@.len(),
                        mem_x == (t % 16) * 8,
                        mem_y == (t / 16) * 8,
                        lower == bank@[16 * t + y],
                        upper == bank@[16 * t + y + 8],
                        self@.path == path0,
                        self@.mem.len() == 16384,
                        mem0.len() == 16384,
                        self@.mem == fill_state(bank@, mem0, t as int, y as int, bit as int),
                    decreases 8 - bit,
                {
                    let lbit = lower >> (7 - bit) as u8 & 1;
                    let ubit = upper >> (7 - bit) as u8 & 1;
                    proof {
                        let sh = (7 - bit) as u8;
                        assert(lower >> sh & 1 <= 1 && upper >> sh & 1 <= 1) by (bit_vector);
                        lemma_pos_compose(t as int, y as int, bit as int);
                    }
                    let pixel = bits_to_rgb(lbit, ubit);
                    let ghost before = self.mem@;
                    self.put_pixel(bit + mem_x, y + mem_y, pixel);
                    proof {
                        let p = ((t as int / 16) * 8 + y) * 128 + (t as int % 16) * 8 + bit;
                        assert((y + mem_y) * 128 + (bit + mem_x) == p);
                        assert(pixel == tile_pixel(bank@, t as int, y as int, bit as int));
                        assert(self.mem@ =~= fill_state(
                            bank@, mem0, t as int, y as int, bit + 1)) by {
                            assert forall|pos: int| 0 <= pos < 16384 implies self.mem@[pos]
                                == fill_state(bank@, mem0, t as int, y as int, bit + 1)[pos] by {
                                lemma_pos_decompose(pos);
                                if pos != p {
                                    assert(drawn_before(pos, t as int, y as int, bit + 1)
                                        == drawn_before(pos, t as int, y as int, bit as int));
                                }
                            }
                        }
                    }
                    bit = bit + 1;
                }
                proof {
                    assert(fill_state(bank@, mem0, t as int, y as int, 8) =~= fill_state(
                        bank@, mem0, t as int, y + 1, 0)) by {
                        assert forall|pos: int| 0 <= pos < 16384 implies drawn_before(
                            pos, t as int, y as int, 8) == drawn_before(
                            pos, t as int, y + 1, 0) by {
                            lemma_pos_decompose(pos);
                        }
                    }
                }
                y = y + 1;
            }
            proof {
                assert(fill_state(bank@, mem0, t as int, 8, 0) =~= fill_state(
                    bank@, mem0, t + 1, 0, 0)) by {
                    assert forall|pos: int| 0 <= pos < 16384 implies drawn_before(
                        pos, t as int, 8, 0) == drawn_before(pos, t + 1, 0, 0) by {
                        lemma_pos_decompose(pos);
                    }
                }
            }
            t = t + 1;
        }
        proof {
            assert(self.mem@ =~= Seq::new(
                16384,
                |pos: int| bank_pixel(bank@, mem0, pos),
            )) by {
                assert forall|pos: int| 0 <= pos < 16384 implies fill_state(
                    bank@, mem0, ntiles as int, 0, 0)[pos] == bank_pixel(bank@, mem0, pos) by {
                    lemma_pos_decompose(pos);
                }
            }
        }
    }

    /// The pixel buffer, row by row.
    pub fn pixels(&self) -> (r: &Vec<Rgb>)
        ensures
            r@ == self@.mem,
    {
        &self.mem
    }

    /// The path the image will be persisted under.
    pub fn path(&self) -> (r: &String)
        ensures
            r@ == self@.path,
    {
        &self.path
    }
}

/// An all-black pixel buffer of the fixed image size.
pub open spec fn black_image() -> Seq<Rgb> {
    Seq::new(16384, |i: int| color_scheme(0))
}

/// The image a graphics bank decodes to, drawn over a black buffer,
/// named after the image's stem and the bank's number.
pub open spec fn bank_image_model(name: Seq<char>, n: int, bank: Seq<u8>) -> ImageModel {
    ImageModel {
        path: name + dec_seq(n as nat) + ".png"@,
        mem: Seq::new(16384, |pos: int| bank_pixel(bank, black_image(), pos)),
    }
}

/// Ghost model of a `NesChr` session.
pub struct ChrModel {
    pub path: Seq<char>,
    pub header: HeaderModel,
    pub chr_rom: BlockModel,
    pub mem: Seq<u8>,
    pub images: Seq<ImageModel>,
}

/// Interacting with the graphics-data block of one image.
pub struct NesChr {
    path: String,
    header: NesHeader,
    chr_rom: Block,
    mem: Vec<u8>,
    images: Vec<NesImage>,
}

impl View for NesChr {
    type V = ChrModel;

    closed spec fn view(&self) -> ChrModel {
        ChrModel {
            path: self.path@,
            header: self.header@,
            chr_rom: self.chr_rom@,
            mem: self.mem@,
            images: self.images@.map_values(|i: NesImage| i@),
        }
    }
}

/// The session holds a whole image and a header over its first 16
/// bytes.
pub open spec fn chr_wf(c: ChrModel) -> bool {
    &&& c.mem.len() >= 16
    &&& header_wf(c.header)
    &&& c.header.mem == c.mem.subrange(0, 16)
}

impl NesChr {
    /// Take a whole image in, ready to decode its graphics banks.
    pub fn new(path: &String, mem: &Vec<u8>) -> (r: Self)
        requires
            mem@.len() >= 16,
        ensures
            chr_wf(r@),
            r@.path == path@,
            r@.mem == mem@,
            r@.images == Seq::<ImageModel>::empty(),
            r@.chr_rom.pos == 0 && r@.chr_rom.size == 0 && r@.chr_rom.value is None,
            !header_parsed(r@.header),
    {
        let r = Self {
            path: String::from_str(path.as_str()),
            header: NesHeader::new(mem),
            chr_rom: Block::new(0, 0),
            mem: vstd::slice::slice_to_vec(mem.as_slice()),
            images: Vec::new(),
        };
        proof {
            assert(r.images@.map_values(|i: NesImage| i@) =~= Seq::<ImageModel>::empty());
        }
        r
    }

    /// Parse the header and resolve where the graphics-data block sits:
    /// after the header, the optional trainer and the program-code
    /// block.
    pub fn parse(&mut self) -> (r: Result<(), NesError>)
        requires
            chr_wf(old(self)@),
        ensures
            chr_wf(final(self)@),
            final(self)@.path == old(self)@.path,
            final(self)@.mem == old(self)@.mem,
            final(self)@.images == old(self)@.images,
            r is Ok <==> image_magic_ok(old(self)@.mem),
            r is Err ==> r == Err::<(), NesError>(NesError::WrongNesFormat),
            r is Ok ==> {
                &&& header_parsed(final(self)@.header)
                &&& final(self)@.chr_rom.pos == image_prg_end(old(self)@.mem)
                &&& final(self)@.chr_rom.size == image_chr_size(old(self)@.mem)
                &&& old(self)@.mem.len() >= image_prg_end(old(self)@.mem) + image_chr_size(
                    old(self)@.mem,
                ) ==> final(self)@.chr_rom.value == Some(
                    old(self)@.mem.subrange(
                        image_prg_end(old(self)@.mem),
                        image_prg_end(old(self)@.mem) + image_chr_size(old(self)@.mem),
                    ),
                )
            },
    {
        let ghost m = self.mem@;
        match self.header.parse() {
            Ok(()) => {},
            Err(e) => {
                proof {
                    assert(m.subrange(0, 16).subrange(0, 4) =~= m.subrange(0, 4));
                }
                return Err(e);
            },
        }
        proof {
            assert(m.subrange(0, 16).subrange(0, 4) =~= m.subrange(0, 4));
            assert(m.subrange(0, 16).subrange(4, 5) =~= m.subrange(4, 5));
            assert(m.subrange(0, 16).subrange(5, 6) =~= m.subrange(5, 6));
            assert(m.subrange(0, 16).subrange(6, 7) =~= m.subrange(6, 7));
        }

        // Get header metadata
        let prg_units = match &self.header.field("len_prg_rom").value {
            Some(v) => v[0],
            None => 0,
        };
        let chr_units = match &self.header.field("len_chr_rom").value {
            Some(v) => v[0],
            None => 0,
        };
        proof {
            reveal_strlit("len_prg_rom");
            reveal_strlit("len_chr_rom");
            assert("len_prg_rom"@[4] == 'p');
            assert("len_chr_rom"@[4] == 'c');
            assert(m.subrange(4, 5)[0] == m[4]);
            assert(m.subrange(5, 6)[0] == m[5]);
            assert(m.subrange(6, 7)[0] == m[6]);
        }
        let prg_rom_size = prg_units as usize * PRG_ROM_UNIT_SIZE;
        self.chr_rom.size = chr_units as usize * CHR_ROM_UNIT_SIZE;

        // Check if there is the trainer (512 bytes)
        self.chr_rom.pos = HEADER_SIZE;
        if self.header.is_trainer() {
            self.chr_rom.pos = HEADER_SIZE + TRAINER_SIZE;
        }

        self.chr_rom.pos = self.chr_rom.pos + prg_rom_size;

        // Fill the blocks
        let mem = vstd::slice::slice_to_vec(self.mem.as_slice());
        self.chr_rom.value_from(&mem);

        Ok(())
    }

    /// Whether the resolved graphics-data block is nonempty.
    pub fn is_chr(&self) -> (r: bool)
        ensures
            r == match self@.header.len_chr_rom.value {
                Some(v) => v.len() > 0 && v[0] > 0,
                None => false,
            },
    {
        self.header.is_chr()
    }

    /// Decode the two banks of the first graphics-data unit into
    /// images, named after the session's path stem and the bank number.
    pub fn chr_to_img(&mut self)
        requires
            old(self)@.chr_rom.value matches Some(v) && v.len() >= 8192,
        ensures
            final(self)@.path == old(self)@.path,
            final(self)@.header == old(self)@.header,
            final(self)@.mem == old(self)@.mem,
            final(self)@.chr_rom == old(self)@.chr_rom,
            ({
                let v = old(self)@.chr_rom.value->Some_0;
                let name = name_of_path(old(self)@.path);
                final(self)@.images == old(self)@.images + seq![
                    bank_image_model(name, 0, v.subrange(0, 4096)),
                    bank_image_model(name, 1, v.subrange(4096, 8192)),
                ]
            }),
    {
        let ghost images0 = self@.images;
        let chr_mem = match &self.chr_rom.value {
            Some(d) => d,
            None => {
                proof {
                    assert(false);
                }
                return ;
            },
        };

        let mut n: usize = 0;
        while n < 2
            invariant
                n <= 2,
                chr_mem@ == old(self)@.chr_rom.value->Some_0,
                chr_mem@.len() >= 8192,
                self@.path == old(self)@.path,
                self@.header == old(self)@.header,
                self@.mem == old(self)@.mem,
                self@.chr_rom == old(self)@.chr_rom,
                self@.images == images0 + Seq::new(
                    n as nat,
                    |k: int|
                        bank_image_model(
                            name_of_path(old(self)@.path),
                            k,
                            chr_mem@.subrange(k * 4096, k * 4096 + 4096),
                        ),
                ),
            decreases 2 - n,
        {
            let idx = n * CHR_ROM_BANK_SIZE;
            let bank = &chr_mem.as_slice()[idx..idx + CHR_ROM_BANK_SIZE];
            let mut path = String::from_str(path_to_name(self.path.as_str()));
            let num = usize_to_string(n);
            path.append(num.as_str());
            path.append(".png");

            let mut image = NesImage::new(&path);
            image.fill_with_bank(bank);
            proof {
                assert(bank@ =~= chr_mem@.subrange(n as int * 4096, n as int * 4096 + 4096));
                assert(image@.mem =~= Seq::new(
                    16384,
                    |pos: int| bank_pixel(bank@, black_image(), pos),
                ));
                assert(image@ == bank_image_model(
                    name_of_path(old(self)@.path),
                    n as int,
                    chr_mem@.subrange(n as int * 4096, n as int * 4096 + 4096),
                ));
            }

            let ghost imgs = self@.images;
            self.images.push(image);
            proof {
                assert(self@.images =~= imgs.push(image@));
                assert(self@.images =~= images0 + Seq::new(
                    (n + 1) as nat,
                    |k: int|
                        bank_image_model(
                            name_of_path(old(self)@.path),
                            k,
                            chr_mem@.subrange(k * 4096, k * 4096 + 4096),
                        ),
                ));
            }
            n = n + 1;
        }
        proof {
            assert(final(self)@.images =~= images0 + seq![
                bank_image_model(
                    name_of_path(old(self)@.path),
                    0,
                    chr_mem@.subrange(0, 4096),
                ),
                bank_image_model(
                    name_of_path(old(self)@.path),
                    1,
                    chr_mem@.subrange(4096, 8192),
                ),
            ]);
        }
    }

    /// The path of the image this session was opened over.
    pub fn path(&self) -> (r: &String)
        ensures
            r@ == self@.path,
    {
        &self.path
    }

    /// The decoded bank images.
    pub fn images(&self) -> (r: &Vec<NesImage>)
        ensures
            r@.map_values(|i: NesImage| i@) == self@.images,
    {
        &self.images
    }
}

/// Ghost model of a graphics encoder.
pub struct EncodeModel {
    pub path: Seq<char>,
    pub rgb_data: Seq<u8>,
    pub mem: Seq<u8>,
}

/// Holds the raw color bytes of a decoded picture, to be turned back
/// into graphics-data tiles.
#[allow(dead_code)]
pub struct NesChrEncode {
    path: String,
    rgb_data: Vec<u8>,
    mem: Vec<u8>,
}

impl View for NesChrEncode {
    type V = EncodeModel;

    closed spec fn view(&self) -> EncodeModel {
        EncodeModel { path: self.path@, rgb_data: self.rgb_data@, mem: self.mem@ }
    }
}

impl NesChrEncode {
    /// Hold a picture's raw color bytes over a zeroed tile buffer of
    /// one graphics-data unit.
    pub fn new(path: &String, rgb_data: Vec<u8>) -> (r: Self)
        ensures
            r@.path == path@,
            r@.rgb_data == rgb_data@,
            r@.mem.len() == 8192,
            forall|i: int| 0 <= i < 8192 ==> r@.mem[i] == 0,
    {
        let mut mem: Vec<u8> = Vec::new();
        let mut i: usize = 0;
        while i < 8192
            invariant
                i <= 8192,
                mem@.len() == i,
                forall|j: int| 0 <= j < i ==> mem@[j] == 0,
            decreases 8192 - i,
        {
            mem.push(0x00);
            i = i + 1;
        }
        Self { path: String::from_str(path.as_str()), rgb_data, mem }
    }
}

} // verus!
