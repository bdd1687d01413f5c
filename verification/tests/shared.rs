use wrds::decoder::shared::Shared;
use wrds::stateless::decode::shared::Shared as StatelessShared;
use wrds::stateless::types::{
    GroupType as StatelessGroupType, ProgramIdentifier, ProgramType, TrafficProgramCode,
};
use wrds::types::{Block1, Block2, GroupType, GroupVariant, ProgrammeType, TrafficProgram};

#[test]
fn shared_all_set() {
    let block2 = Block2(0xFFFF);
    let shared = Shared::from(block2);

    assert_eq!(
        shared,
        Shared {
            pty: ProgrammeType(0x1F),
            gt: GroupType(0xF),
            gv: GroupVariant::B,
            tp: TrafficProgram(true)
        }
    );

    let block1 = Block1(0xFFFF);
    let block2 = Block2(0xFFFF);

    let shared = StatelessShared::new(&block1, &block2);

    assert_eq!(
        shared,
        StatelessShared {
            pi: ProgramIdentifier(0xFFFF),
            pty: ProgramType(0x1F),
            group_type: StatelessGroupType::FifteenB,
            tp: TrafficProgramCode(true)
        }
    );
}

#[test]
fn shared_none_set() {
    let block2 = Block2(0x0000);
    let shared = Shared::from(block2);

    assert_eq!(
        shared,
        Shared {
            pty: ProgrammeType(0x00),
            gt: GroupType(0x0),
            gv: GroupVariant::A,
            tp: TrafficProgram(false)
        }
    );

    let block1 = Block1(0);
    let block2 = Block2(0);

    let shared = StatelessShared::new(&block1, &block2);
    assert_eq!(
        shared,
        StatelessShared {
            pi: ProgramIdentifier(0),
            pty: ProgramType(0),
            group_type: StatelessGroupType::ZeroA,
            tp: TrafficProgramCode(false)
        }
    );
}

#[test]
fn beef() {
    let block2 = Block2(0xBEEF);

    assert_eq!(
        Shared::from(block2),
        Shared {
            pty: ProgrammeType(0x17),
            gt: GroupType(0xB),
            gv: GroupVariant::B,
            tp: TrafficProgram(true),
        }
    )
}

#[test]
fn each_field_has_its_own_bits() {
    assert_eq!(Shared::from(Block2(0x1000)).gt, GroupType(1));
    assert_eq!(Shared::from(Block2(0x8000)).gt, GroupType(8));
    assert_eq!(Shared::from(Block2(0x0800)).gv, GroupVariant::B);
    assert_eq!(Shared::from(Block2(0x0400)).tp, TrafficProgram(true));
    assert_eq!(Shared::from(Block2(0x0200)).pty, ProgrammeType(16));
    assert_eq!(Shared::from(Block2(0x0020)).pty, ProgrammeType(1));
    // The five lowest bits belong to the group.
    assert_eq!(Shared::from(Block2(0x001F)), Shared::from(Block2(0x0000)));
}
