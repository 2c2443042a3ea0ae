use powerline::bpf::bpf_insn;
use powerline::bpf::jeq;
use powerline::bpf::ldah_abs;
use powerline::bpf::ret;

#[test]
fn ethertype_filter() {
    let expected = [
        bpf_insn { code: 0x28, jt: 0, jf: 0, k: 12 },
        bpf_insn { code: 0x15, jt: 0, jf: 1, k: 0x1337 },
        bpf_insn { code: 0x06, jt: 0, jf: 0, k: 0x40000 },
        bpf_insn { code: 0x06, jt: 0, jf: 0, k: 0x00000 },
    ];
    assert_eq!(expected[0], ldah_abs(12));
    assert_eq!(expected[1], jeq(0, 1, 0x1337));
    assert_eq!(expected[2], ret(0x40000));
    assert_eq!(expected[3], ret(0x00000));
}

#[test]
fn alu_and_misc_codes() {
    assert_eq!(powerline::bpf::add(7), bpf_insn { code: 0x04, jt: 0, jf: 0, k: 7 });
    assert_eq!(powerline::bpf::lda_len(), bpf_insn { code: 0x80, jt: 0, jf: 0, k: 0 });
    assert_eq!(powerline::bpf::ldx_msh(14), bpf_insn { code: 0xb1, jt: 0, jf: 0, k: 14 });
    assert_eq!(powerline::bpf::tax(), bpf_insn { code: 0x07, jt: 0, jf: 0, k: 0 });
    assert_eq!(powerline::bpf::reta(), bpf_insn { code: 0x16, jt: 0, jf: 0, k: 0 });
}
