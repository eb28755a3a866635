use bcm_gpio::{Access, Operation, Register, Registers};

const GROUPS: [Register; 13] = [
    Register::Gpfsel,
    Register::Gpset,
    Register::Gpclr,
    Register::Gplev,
    Register::Gpeds,
    Register::Gpren,
    Register::Gpfen,
    Register::Gphen,
    Register::Gplen,
    Register::Gparen,
    Register::Gpafen,
    Register::Gppud,
    Register::Gppudclk,
];

fn words_of(block: &Registers) -> Vec<u32> {
    let mut words = Vec::new();
    for register in GROUPS.iter() {
        for bank in 0..register.banks() {
            words.push(block.word(*register, bank));
        }
    }
    words
}

#[test]
fn new_block_is_blank() {
    let block = Registers::new();
    assert!(words_of(&block).iter().all(|word| *word == 0));
    assert_eq!(words_of(&block).len(), 29);
    assert!(block.history().is_empty());
}

#[test]
fn load_changes_one_word_and_no_history() {
    let mut block = Registers::new();
    block.load(Register::Gplev, 1, 0x0020_0000);
    assert_eq!(block.word(Register::Gplev, 1), 0x0020_0000);
    assert_eq!(words_of(&block).iter().filter(|word| **word != 0).count(), 1);
    assert!(block.history().is_empty());
}

#[test]
fn read_hands_back_the_word_and_changes_nothing() {
    let mut block = Registers::new();
    block.load(Register::Gplev, 0, 0xA5A5_0001);
    let before = words_of(&block);
    let access = Access { register: Register::Gplev, bank: 0, operation: Operation::Read };
    assert_eq!(block.perform(&access), 0xA5A5_0001);
    assert_eq!(words_of(&block), before);
    assert_eq!(block.history(), &vec![access]);
}

#[test]
fn write_stores_the_word_and_hands_back_zero() {
    let mut block = Registers::new();
    let access = Access { register: Register::Gpset, bank: 1, operation: Operation::Write(0x8000_0001) };
    assert_eq!(block.perform(&access), 0);
    assert_eq!(block.word(Register::Gpset, 1), 0x8000_0001);
    assert_eq!(words_of(&block).iter().filter(|word| **word != 0).count(), 1);
    assert_eq!(block.history(), &vec![access]);
}

#[test]
fn clear_and_set_bits_merge_with_the_word_held() {
    let mut block = Registers::new();
    block.load(Register::Gpfsel, 2, 0xFFFF_FFFF);
    let clear = Access { register: Register::Gpfsel, bank: 2, operation: Operation::ClearBits(0x38) };
    let set = Access { register: Register::Gpfsel, bank: 2, operation: Operation::SetBits(0x10) };
    assert_eq!(block.perform(&clear), 0xFFFF_FFFF);
    assert_eq!(block.word(Register::Gpfsel, 2), 0xFFFF_FFC7);
    assert_eq!(block.perform(&set), 0xFFFF_FFC7);
    assert_eq!(block.word(Register::Gpfsel, 2), 0xFFFF_FFD7);
    assert_eq!(block.history(), &vec![clear, set]);
}

#[test]
fn run_performs_in_order() {
    let accesses = [
        Access { register: Register::Gpeds, bank: 0, operation: Operation::Write(0xF0) },
        Access { register: Register::Gpeds, bank: 0, operation: Operation::ClearBits(0x30) },
        Access { register: Register::Gpeds, bank: 0, operation: Operation::SetBits(0x01) },
        Access { register: Register::Gpeds, bank: 1, operation: Operation::Read },
    ];
    let mut block = Registers::new();
    block.run(&accesses);
    assert_eq!(block.word(Register::Gpeds, 0), 0xC1);
    assert_eq!(block.word(Register::Gpeds, 1), 0);
    assert_eq!(block.history(), &accesses.to_vec());

    let mut stepwise = Registers::new();
    for access in accesses.iter() {
        stepwise.perform(access);
    }
    assert_eq!(words_of(&stepwise), words_of(&block));
    assert_eq!(stepwise.history(), block.history());
}

#[test]
fn run_of_nothing_changes_nothing() {
    let mut block = Registers::new();
    block.load(Register::Gppud, 0, 3);
    let before = words_of(&block);
    block.run(&[]);
    assert_eq!(words_of(&block), before);
    assert!(block.history().is_empty());
}

#[test]
fn every_register_keeps_its_own_word() {
    let mut block = Registers::new();
    let mut next: u32 = 1;
    for register in GROUPS.iter() {
        for bank in 0..register.banks() {
            block.load(*register, bank, next);
            next += 1;
        }
    }
    let expected: Vec<u32> = (1..=29).collect();
    assert_eq!(words_of(&block), expected);
}
