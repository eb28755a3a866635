use bcm_gpio::{AccessMode, Register, BLOCK_BYTES, BLOCK_WORDS, CORE_CLK_HZ, GPIO_BASE, PERIPHERAL_BASE};

const ALL: [Register; 13] = [
    Register::Gpfsel,
    Register::Gpset,
    Register::Gpclr,
    Register::Gplev,
    Register::Gpeds,
    Register::Gpren,
    Register::Gpfen,
    Register::Gphen,
    Register::Gplen,
    Register::Gparen,
    Register::Gpafen,
    Register::Gppud,
    Register::Gppudclk,
];

#[test]
fn platform_constants() {
    assert_eq!(PERIPHERAL_BASE, 0x3F00_0000);
    assert_eq!(GPIO_BASE, 0x3F20_0000);
    assert_eq!(CORE_CLK_HZ, 250_000_000);
    assert_eq!(BLOCK_BYTES, 0xA4);
    assert_eq!(BLOCK_WORDS, 41);
    assert_eq!(BLOCK_BYTES, 4 * BLOCK_WORDS);
}

#[test]
fn offsets_match_the_memory_map() {
    let expected: [usize; 13] =
        [0x00, 0x1C, 0x28, 0x34, 0x40, 0x4C, 0x58, 0x64, 0x70, 0x7C, 0x88, 0x94, 0x98];
    for (register, offset) in ALL.iter().zip(expected.iter()) {
        assert_eq!(register.offset(), *offset, "{:?}", register);
    }
}

#[test]
fn bank_counts_match_the_memory_map() {
    for register in ALL.iter() {
        let expected = match register {
            Register::Gpfsel => 6,
            Register::Gppud => 1,
            _ => 2,
        };
        assert_eq!(register.banks(), expected, "{:?}", register);
    }
}

#[test]
fn access_modes_match_the_memory_map() {
    for register in ALL.iter() {
        let expected = match register {
            Register::Gpset | Register::Gpclr => AccessMode::WriteOnly,
            Register::Gplev => AccessMode::ReadOnly,
            _ => AccessMode::ReadWrite,
        };
        assert_eq!(register.mode(), expected, "{:?}", register);
    }
}

#[test]
fn addresses_of_documented_registers() {
    assert_eq!(Register::Gpfsel.address(0), 0x3F20_0000);
    assert_eq!(Register::Gpfsel.address(5), 0x3F20_0014);
    assert_eq!(Register::Gpset.address(0), 0x3F20_001C);
    assert_eq!(Register::Gpset.address(1), 0x3F20_0020);
    assert_eq!(Register::Gpclr.address(0), 0x3F20_0028);
    assert_eq!(Register::Gpclr.address(1), 0x3F20_002C);
    assert_eq!(Register::Gplev.address(0), 0x3F20_0034);
    assert_eq!(Register::Gplev.address(1), 0x3F20_0038);
    assert_eq!(Register::Gpeds.address(0), 0x3F20_0040);
    assert_eq!(Register::Gpren.address(1), 0x3F20_0050);
    assert_eq!(Register::Gpfen.address(0), 0x3F20_0058);
    assert_eq!(Register::Gphen.address(1), 0x3F20_0068);
    assert_eq!(Register::Gplen.address(0), 0x3F20_0070);
    assert_eq!(Register::Gparen.address(1), 0x3F20_0080);
    assert_eq!(Register::Gpafen.address(0), 0x3F20_0088);
    assert_eq!(Register::Gppud.address(0), 0x3F20_0094);
    assert_eq!(Register::Gppudclk.address(0), 0x3F20_0098);
    assert_eq!(Register::Gppudclk.address(1), 0x3F20_009C);
}

#[test]
fn word_indices_of_documented_registers() {
    assert_eq!(Register::Gpfsel.index(0), 0);
    assert_eq!(Register::Gpfsel.index(5), 5);
    assert_eq!(Register::Gpset.index(0), 7);
    assert_eq!(Register::Gpclr.index(1), 11);
    assert_eq!(Register::Gplev.index(0), 13);
    assert_eq!(Register::Gppud.index(0), 37);
    assert_eq!(Register::Gppudclk.index(1), 39);
}

#[test]
fn registers_fill_the_block_without_overlap() {
    let mut owner: [Option<(Register, usize)>; 41] = [None; 41];
    for register in ALL.iter() {
        for bank in 0..register.banks() {
            let word = register.index(bank);
            assert!(word < BLOCK_WORDS);
            assert_eq!(register.address(bank), GPIO_BASE + 4 * word);
            assert_eq!(owner[word], None, "{:?} {}", register, bank);
            owner[word] = Some((*register, bank));
        }
    }
    let reserved: Vec<usize> = (0..41).filter(|word| owner[*word].is_none()).collect();
    assert_eq!(reserved, vec![6, 9, 12, 15, 18, 21, 24, 27, 30, 33, 36, 40]);
}
