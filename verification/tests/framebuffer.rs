//! Framebuffer expansion test: one bit of video RAM per grey-scale byte.

use tek4404::mem::Memory;
use tek4404::video::update_framebuffer;

#[test]
fn expands_bits_to_pixels() {
    let mut vram = Memory::new(0, 1, 2, false).unwrap();
    vram.mem[0] = 0b1010_0001;
    vram.mem[1] = 0xff;

    let mut fb = vec![7u8; 16];
    update_framebuffer(&vram, &mut fb);

    assert_eq!(
        vec![0, 255, 0, 255, 255, 255, 255, 0, 0, 0, 0, 0, 0, 0, 0, 0],
        fb
    );
}
