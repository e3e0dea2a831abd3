use emu8080::cpu::Cpu;
use emu8080::display::byte_to_points;

#[test]
fn it_works() {
    let mut result;

    for byte in 0..0xffu8 {
        for byte_index in 0x2400..0x3fffusize {
            result = byte_to_points(byte, byte_index);
            assert_eq!(result.len(), byte.count_ones() as usize);
        }
    }
}

#[test]
fn byte_to_points_coordinates() {
    // Byte 0x2401 starts at bit index 8: column 0, rows counted down from 256.
    assert_eq!(byte_to_points(0x81, 0x2401), vec![(0, 248), (0, 241)]);
    // Byte 0x2420 starts at bit index 256: column 1.
    assert_eq!(byte_to_points(0x80, 0x2420), vec![(1, 256)]);
    assert_eq!(byte_to_points(0, 0x3fff), vec![]);
}

#[test]
fn screen_points_of_written_framebuffer() {
    // MVI A,0x80; STA 0x2400; MVI A,0x01; STA 0x3FFF; HLT
    let program = vec![0x3e, 0x80, 0x32, 0x00, 0x24, 0x3e, 0x01, 0x32, 0xff, 0x3f, 0x76];
    let mut cpu = Cpu::new(program);
    assert_eq!(cpu.run(100), Ok(5));
    let index = (0x3fff - 0x2400) * 8;
    let last = ((index / 256) as i32, (256 - (index % 256 + 7)) as i32);
    assert_eq!(cpu.screen_points(), vec![(0, 256), last]);
}
