//! ROM layout: the cartridge header with its two checksums, and a generator
//! that assembles a padded ROM image around a program.

use vstd::prelude::*;

verus! {

/// One step of the header checksum: `acc - byte - 1`, wrapping.
pub open spec fn spec_sub_step(acc: u8, byte: u8) -> u8 {
    if acc - byte - 1 >= 0 {
        (acc - byte - 1) as u8
    } else {
        (acc - byte - 1 + 256) as u8
    }
}

/// The header checksum folded over a byte sequence, front to back.
pub open spec fn spec_sub_fold(s: Seq<u8>, acc: u8) -> u8
    decreases s.len(),
{
    if s.len() == 0 {
        acc
    } else {
        spec_sub_fold(s.drop_first(), spec_sub_step(acc, s[0]))
    }
}

/// The wrapping 16-bit byte sum folded over a byte sequence.
pub open spec fn spec_sum_fold(s: Seq<u8>, acc: u16) -> u16
    decreases s.len(),
{
    if s.len() == 0 {
        acc
    } else {
        spec_sum_fold(s.drop_first(), if acc + s[0] > 0xFFFF {
            (acc + s[0] - 0x10000) as u16
        } else {
            (acc + s[0]) as u16
        })
    }
}

/// The cartridge header fields.
#[derive(Debug, Clone)]
pub struct RomHeader {
    pub nintendo_logo: Vec<u8>,
    pub title: Vec<u8>,
    pub manufacturer_code: Vec<u8>,
    pub cgb_flag: u8,
    pub new_licensee_code: Vec<u8>,
    pub sgb_flag: u8,
    pub cartridge_type: u8,
    pub rom_size: u8,
    pub ram_size: u8,
    pub destination_code: u8,
    pub old_licensee_code: u8,
    pub rom_version: u8,
    pub header_checksum: u8,
    pub global_checksum: u16,
}

/// The fixed sizes of the header's byte fields.
pub open spec fn spec_header_wf(h: &RomHeader) -> bool {
    &&& h.nintendo_logo@.len() == 48
    &&& h.title@.len() == 16
    &&& h.manufacturer_code@.len() == 2
    &&& h.new_licensee_code@.len() == 2
}

/// The header checksum: `0 - b - 1` folded over the title, the manufacturer
/// code, the CGB flag, the new licensee code, and the remaining one-byte
/// fields, in layout order.
pub open spec fn spec_header_checksum(h: &RomHeader) -> u8 {
    let after_title = spec_sub_fold(h.title@, 0);
    let after_manufacturer = spec_sub_fold(h.manufacturer_code@, after_title);
    let after_cgb = spec_sub_step(after_manufacturer, h.cgb_flag);
    let after_licensee = spec_sub_fold(h.new_licensee_code@, after_cgb);
    let after_sgb = spec_sub_step(after_licensee, h.sgb_flag);
    let after_cartridge = spec_sub_step(after_sgb, h.cartridge_type);
    let after_rom = spec_sub_step(after_cartridge, h.rom_size);
    let after_ram = spec_sub_step(after_rom, h.ram_size);
    let after_destination = spec_sub_step(after_ram, h.destination_code);
    let after_old = spec_sub_step(after_destination, h.old_licensee_code);
    spec_sub_step(after_old, h.rom_version)
}

/// The 0x150-byte serialised header: an entry jump at 0x100, the logo at
/// 0x104, the title at 0x134, and the remaining fields behind them; every
/// other byte is zero.
pub open spec fn spec_header_bytes(h: &RomHeader) -> Seq<u8> {
    Seq::new(
        0x150,
        |i: int|
            {
                if i == 0x101 {
                    0xC3u8
                } else if i == 0x102 {
                    0x50u8
                } else if i == 0x103 {
                    0x01u8
                } else if 0x104 <= i < 0x134 {
                    h.nintendo_logo@[i - 0x104]
                } else if 0x134 <= i < 0x144 {
                    h.title@[i - 0x134]
                } else if 0x144 <= i < 0x146 {
                    h.manufacturer_code@[i - 0x144]
                } else if i == 0x146 {
                    h.cgb_flag
                } else if 0x147 <= i < 0x149 {
                    h.new_licensee_code@[i - 0x147]
                } else if i == 0x149 {
                    h.sgb_flag
                } else if i == 0x14A {
                    h.cartridge_type
                } else if i == 0x14B {
                    h.rom_size
                } else if i == 0x14C {
                    h.ram_size
                } else if i == 0x14D {
                    h.destination_code
                } else if i == 0x14E {
                    h.old_licensee_code
                } else if i == 0x14F {
                    h.rom_version
                } else {
                    0u8
                }
            },
    )
}

/// Folds the header checksum over one byte vector.
fn sub_fold(bytes: &Vec<u8>, acc: u8) -> (r: u8)
    ensures
        r == spec_sub_fold(bytes@, acc),
{
    let ghost acc0 = acc;
    let mut acc = acc;
    let mut i: usize = 0;
    proof {
        assert(bytes@.subrange(0, bytes@.len() as int) =~= bytes@);
    }
    while i < bytes.len()
        invariant
            i <= bytes@.len(),
            spec_sub_fold(bytes@.subrange(i as int, bytes@.len() as int), acc) == spec_sub_fold(
                bytes@,
                acc0,
            ),
        decreases bytes@.len() - i,
    {
        proof {
            assert(bytes@.subrange(i as int, bytes@.len() as int).drop_first() =~= bytes@.subrange(
                i + 1,
                bytes@.len() as int,
            ));
        }
        acc = acc.wrapping_sub(bytes[i]).wrapping_sub(1);
        i = i + 1;
    }
    proof {
        assert(bytes@.subrange(bytes@.len() as int, bytes@.len() as int) =~= Seq::<u8>::empty());
        assert(bytes@.subrange(0, bytes@.len() as int) =~= bytes@);
    }
    acc
}

impl RomHeader {
    /// A header for the given title: the standard logo, the title's bytes
    /// (truncated at sixteen) padded with zeros, and every other field at
    /// its plain default.
    pub fn new(title: &str) -> (r: RomHeader)
        ensures
            spec_header_wf(&r),
            r.cgb_flag == 0,
            r.sgb_flag == 0,
            r.cartridge_type == 0,
            r.rom_size == 0,
            r.ram_size == 0,
            r.destination_code == 0,
            r.old_licensee_code == 0,
            r.rom_version == 0,
            r.header_checksum == 0,
            r.global_checksum == 0,
    {
        let nintendo_logo: Vec<u8> = vec![
            0xCE, 0xED, 0x66, 0x66, 0xCC, 0x0D, 0x00, 0x0B, 0x03, 0x73, 0x00, 0x83, 0x00, 0x0C,
            0x00, 0x0D, 0x00, 0x08, 0x11, 0x1F, 0x88, 0x89, 0x00, 0x0E, 0xDC, 0xCC, 0x6E, 0xE6,
            0xDD, 0xDD, 0xD9, 0x99, 0xBB, 0xBB, 0x67, 0x63, 0x6E, 0x0E, 0xEC, 0xCC, 0xDD, 0xDC,
            0x99, 0x9F, 0xBB, 0xB9, 0x33, 0x3E,
        ];
        let mut title_bytes: Vec<u8> = vec![0u8; 16];
        let source = title.as_bytes();
        let limit: usize = if source.len() < 16 {
            source.len()
        } else {
            16
        };
        let mut i: usize = 0;
        while i < limit
            invariant
                limit <= 16,
                limit <= source@.len(),
                i <= limit,
                title_bytes@.len() == 16,
            decreases limit - i,
        {
            title_bytes[i] = source[i];
            i = i + 1;
        }
        RomHeader {
            nintendo_logo,
            title: title_bytes,
            manufacturer_code: vec![0u8; 2],
            cgb_flag: 0,
            new_licensee_code: vec![0u8; 2],
            sgb_flag: 0,
            cartridge_type: 0,
            rom_size: 0,
            ram_size: 0,
            destination_code: 0,
            old_licensee_code: 0,
            rom_version: 0,
            header_checksum: 0,
            global_checksum: 0,
        }
    }

    /// The checksum over the header's identity fields.
    pub fn calculate_header_checksum(&self) -> (r: u8)
        ensures
            r == spec_header_checksum(self),
    {
        let mut checksum: u8 = 0;
        checksum = sub_fold(&self.title, checksum);
        checksum = sub_fold(&self.manufacturer_code, checksum);
        checksum = checksum.wrapping_sub(self.cgb_flag).wrapping_sub(1);
        checksum = sub_fold(&self.new_licensee_code, checksum);
        checksum = checksum.wrapping_sub(self.sgb_flag).wrapping_sub(1);
        checksum = checksum.wrapping_sub(self.cartridge_type).wrapping_sub(1);
        checksum = checksum.wrapping_sub(self.rom_size).wrapping_sub(1);
        checksum = checksum.wrapping_sub(self.ram_size).wrapping_sub(1);
        checksum = checksum.wrapping_sub(self.destination_code).wrapping_sub(1);
        checksum = checksum.wrapping_sub(self.old_licensee_code).wrapping_sub(1);
        checksum = checksum.wrapping_sub(self.rom_version).wrapping_sub(1);
        checksum
    }

    /// The wrapping 16-bit sum of every byte of a ROM image.
    pub fn calculate_global_checksum(&self, rom_data: &[u8]) -> (r: u16)
        ensures
            r == spec_sum_fold(rom_data@, 0),
    {
        let mut checksum: u16 = 0;
        let mut i: usize = 0;
        proof {
            assert(rom_data@.subrange(0, rom_data@.len() as int) =~= rom_data@);
        }
        while i < rom_data.len()
            invariant
                i <= rom_data@.len(),
                spec_sum_fold(rom_data@.subrange(i as int, rom_data@.len() as int), checksum)
                    == spec_sum_fold(rom_data@, 0),
            decreases rom_data@.len() - i,
        {
            proof {
                assert(rom_data@.subrange(i as int, rom_data@.len() as int).drop_first()
                    =~= rom_data@.subrange(i + 1, rom_data@.len() as int));
            }
            checksum = checksum.wrapping_add(rom_data[i] as u16);
            i = i + 1;
        }
        proof {
            assert(rom_data@.subrange(rom_data@.len() as int, rom_data@.len() as int)
                =~= Seq::<u8>::empty());
        }
        checksum
    }

    /// Serialises the header into its 0x150-byte layout.
    pub fn to_bytes(&self) -> (r: Vec<u8>)
        requires
            spec_header_wf(self),
        ensures
            r@ == spec_header_bytes(self),
    {
        let mut bytes: Vec<u8> = vec![0u8; 0x150];
        bytes[0x100] = 0x00;
        bytes[0x101] = 0xC3;
        bytes[0x102] = 0x50;
        bytes[0x103] = 0x01;
        copy_into(&mut bytes, 0x104, &self.nintendo_logo);
        copy_into(&mut bytes, 0x134, &self.title);
        copy_into(&mut bytes, 0x144, &self.manufacturer_code);
        bytes[0x146] = self.cgb_flag;
        copy_into(&mut bytes, 0x147, &self.new_licensee_code);
        bytes[0x149] = self.sgb_flag;
        bytes[0x14A] = self.cartridge_type;
        bytes[0x14B] = self.rom_size;
        bytes[0x14C] = self.ram_size;
        bytes[0x14D] = self.destination_code;
        bytes[0x14E] = self.old_licensee_code;
        bytes[0x14F] = self.rom_version;
        proof {
            assert(bytes@ =~= spec_header_bytes(self));
        }
        bytes
    }
}

/// Copies `source` into `target` starting at `offset`.
fn copy_into(target: &mut Vec<u8>, offset: usize, source: &Vec<u8>)
    requires
        offset + source@.len() <= old(target)@.len(),
    ensures
        final(target)@.len() == old(target)@.len(),
        forall|i: int|
            0 <= i < source@.len() ==> final(target)@[offset + i] == source@[i],
        forall|i: int|
            0 <= i < old(target)@.len() && !(offset <= i < offset + source@.len()) ==> final(target)@[i] == old(target)@[i],
{
    let tlen = target.len();
    let mut i: usize = 0;
    while i < source.len()
        invariant
            i <= source@.len(),
            offset + source@.len() <= tlen,
            tlen == target@.len(),
            target@.len() == old(target)@.len(),
            forall|j: int| 0 <= j < i ==> target@[offset + j] == source@[j],
            forall|j: int|
                0 <= j < target@.len() && !(offset <= j < offset + source@.len()) ==> target@[j]
                    == old(target)@[j],
        decreases source@.len() - i,
    {
        target[offset + i] = source[i];
        i = i + 1;
    }
}

/// The image `generate_rom` produces: the serialised header — its checksum
/// freshly computed — with the program bytes at their own addresses behind
/// it, padded with 0xFF to at least 32 KiB, and the global byte sum patched
/// into its header slot at 0x14E and 0x14F, little-endian.
pub open spec fn spec_rom_image(header: &RomHeader, data: Seq<u8>) -> Seq<u8> {
    let patched = RomHeader { header_checksum: spec_header_checksum(header), ..*header };
    let tail = if data.len() > 0x150 {
        data.subrange(0x150, data.len() as int)
    } else {
        Seq::<u8>::empty()
    };
    let base = spec_header_bytes(&patched) + tail;
    let filled = if base.len() < 32768 {
        base + Seq::new((32768 - base.len()) as nat, |i: int| 0xFFu8)
    } else {
        base
    };
    let checksum = spec_sum_fold(filled, 0);
    filled.update(0x14E, (checksum % 256) as u8).update(0x14F, (checksum / 256) as u8)
}

/// Assembles ROM images around an accumulated program.
#[derive(Debug)]
pub struct RomGenerator {
    header: RomHeader,
    program_data: Vec<u8>,
}

impl RomGenerator {
    /// The header as it currently stands.
    pub closed spec fn spec_header(&self) -> RomHeader {
        self.header
    }

    /// The accumulated program bytes.
    pub closed spec fn spec_data(&self) -> Seq<u8> {
        self.program_data@
    }

    /// A generator around a fresh header for the title, with no program
    /// bytes yet.
    pub fn new(title: &str) -> (r: RomGenerator)
        ensures
            spec_header_wf(&r.spec_header()),
            r.spec_data().len() == 0,
    {
        RomGenerator { header: RomHeader::new(title), program_data: Vec::new() }
    }

    /// Writes a program at an offset of the accumulated data, growing it
    /// with zeros as needed.
    pub fn add_program(&mut self, start_address: u16, program: &[u8])
        requires
            start_address + program@.len() <= u16::MAX,
        ensures
            final(self).spec_header() == old(self).spec_header(),
            final(self).spec_data().len() == if start_address + program@.len() > old(self).spec_data().len() {
                start_address + program@.len()
            } else {
                old(self).spec_data().len() as int
            },
            forall|i: int|
                0 <= i < program@.len() ==> final(self).spec_data()[start_address + i]
                    == program@[i],
            forall|i: int|
                0 <= i < old(self).spec_data().len() && !(start_address <= i < start_address
                    + program@.len()) ==> final(self).spec_data()[i] == old(self).spec_data()[i],
            forall|i: int|
                old(self).spec_data().len() <= i < final(self).spec_data().len() && !(
                start_address <= i < start_address + program@.len()) ==> final(self).spec_data()[i] == 0,
    {
        let end_address = start_address as usize + program.len();
        if end_address > self.program_data.len() {
            self.program_data.resize(end_address, 0x00);
        }
        let dlen = self.program_data.len();
        let mut i: usize = 0;
        while i < program.len()
            invariant
                i <= program@.len(),
                start_address + program@.len() <= dlen,
                dlen == self.program_data@.len(),
                self.header == old(self).header,
                self.program_data@.len() == if start_address + program@.len() > old(self).program_data@.len() {
                    start_address + program@.len()
                } else {
                    old(self).program_data@.len() as int
                },
                forall|j: int|
                    0 <= j < i ==> self.program_data@[start_address + j] == program@[j],
                forall|j: int|
                    0 <= j < old(self).program_data@.len() && !(start_address <= j < start_address
                        + program@.len()) ==> self.program_data@[j] == old(self).program_data@[j],
                forall|j: int|
                    old(self).program_data@.len() <= j < self.program_data@.len() && !(
                    start_address <= j < start_address + program@.len())
                        ==> self.program_data@[j] == 0,
            decreases program@.len() - i,
        {
            self.program_data[start_address as usize + i] = program[i];
            i = i + 1;
        }
    }

    /// Assembles the padded, checksummed ROM image and records both
    /// checksums in the header. The program bytes keep their own addresses:
    /// the part of the data below the header's end is the header's ground
    /// and is not copied over it.
    pub fn generate_rom(&mut self) -> (r: Vec<u8>)
        requires
            spec_header_wf(&old(self).spec_header()),
        ensures
            r@ == spec_rom_image(&old(self).spec_header(), old(self).spec_data()),
            final(self).spec_data() == old(self).spec_data(),
            spec_header_wf(&final(self).spec_header()),
    {
        let checksum = self.header.calculate_header_checksum();
        self.header.header_checksum = checksum;
        proof {
            assert(self.header == (RomHeader {
                header_checksum: spec_header_checksum(&old(self).spec_header()),
                ..old(self).spec_header()
            }));
        }
        let mut rom_data = self.header.to_bytes();
        if self.program_data.len() > 0x150 {
            let mut i: usize = 0x150;
            while i < self.program_data.len()
                invariant
                    0x150 <= i <= self.program_data@.len(),
                    self.program_data@ == old(self).program_data@,
                    rom_data@ =~= spec_header_bytes(&self.header) + self.program_data@.subrange(
                        0x150,
                        i as int,
                    ),
                    self.header == (RomHeader {
                        header_checksum: spec_header_checksum(&old(self).spec_header()),
                        ..old(self).spec_header()
                    }),
                decreases self.program_data@.len() - i,
            {
                rom_data.push(self.program_data[i]);
                proof {
                    assert(self.program_data@.subrange(0x150, i + 1)
                        =~= self.program_data@.subrange(0x150, i as int).push(
                        self.program_data@[i as int],
                    ));
                }
                i = i + 1;
            }
        }
        proof {
            let tail = if self.program_data@.len() > 0x150 {
                self.program_data@.subrange(0x150, self.program_data@.len() as int)
            } else {
                Seq::<u8>::empty()
            };
            assert(rom_data@ =~= spec_header_bytes(&self.header) + tail);
        }
        let ghost base = rom_data@;
        if rom_data.len() < 32768 {
            let ghost shortfall = 32768 - rom_data@.len();
            rom_data.resize(32768, 0xFF);
            proof {
                assert(rom_data@ =~= base + Seq::new(shortfall as nat, |i: int| 0xFFu8));
            }
        }
        let global = self.header.calculate_global_checksum(rom_data.as_slice());
        self.header.global_checksum = global;
        rom_data[0x14E] = (global % 256) as u8;
        rom_data[0x14F] = (global / 256) as u8;
        proof {
            assert(rom_data@ =~= spec_rom_image(&old(self).spec_header(), old(self).spec_data()));
        }
        rom_data
    }
}

} // verus!
