//! End-to-end walkthrough: parse a two-frame manifest, register and
//! activate an idle animation, and drive it through the tick interface.

use sprite_xml::engine::SpriteXML;
use sprite_xml::manifest::XML;
use sprite_xml::offsets::Transform2;
use sprite_xml::offsets::Vec2I;

#[test]
fn idle_walkthrough() {
    let text = "<TextureAtlas imagePath=\"idle.png\">\n\
                <SubTexture name=\"idle0\" x=\"0\" y=\"0\" width=\"10\" height=\"10\" frameX=\"0\" frameY=\"0\"/>\n\
                <SubTexture name=\"idle1\" x=\"10\" y=\"0\" width=\"10\" height=\"10\" frameX=\"4\" frameY=\"2\"/>\n\
                </TextureAtlas>";
    let xml = XML::parse(&text.as_bytes().to_vec()).unwrap();
    let mut engine = SpriteXML::from_xml(xml);
    engine.add_anim_from_prefix(b"idle".to_vec(), true, 10).unwrap();

    let mut frame: usize = 0;
    let mut t = Transform2 {
        translation: Vec2I { x: 0, y: 0 },
        scale: Vec2I { x: 1, y: 1 },
    };
    engine.set_anim(b"idle".to_vec(), &mut frame, true).unwrap();
    assert_eq!(frame, 0);

    // Entry 0 compensates by (0, 0): applying the initial offset changes
    // nothing.
    engine.apply_offsets(frame, &mut t);
    assert_eq!(t.translation, Vec2I { x: 0, y: 0 });

    // First 0.1 s tick: one interval crossing; the step holds on frame 0
    // and only flips the has-advanced flag.
    engine.tick(100_000_000, &mut frame, &mut t);
    assert_eq!(frame, 0);
    assert!(engine.animations[0].should_go);
    assert_eq!(t.translation, Vec2I { x: 0, y: 0 });

    // Second 0.1 s tick: advance to frame 1. Entry 1 compensates by
    // (-4, 2) half-pixel units — a pixel delta of (-4/2, 2/2) = (-2, 1) —
    // scaled by the transform scale of one.
    engine.tick(100_000_000, &mut frame, &mut t);
    assert_eq!(frame, 1);
    assert_eq!(t.translation, Vec2I { x: -4, y: 2 });
    assert!(!engine.animations[0].finished);
}
