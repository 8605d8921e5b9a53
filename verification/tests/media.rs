use playdate::device::ClipRect;
use playdate::device::Device;
use playdate::error::PdError;
use playdate::graphics::BitmapDrawMode;
use playdate::graphics::BitmapFlip;
use playdate::graphics::Bitmap;
use playdate::graphics::Color;
use playdate::graphics::Graphics;
use playdate::graphics::LineCapStyle;
use playdate::graphics::SolidColor;
use playdate::sound::FilePlayer;
use playdate::sound::SamplePlayer;
use playdate::sound::Sample;
use playdate::sprite::PDRect;
use playdate::sprite::Sprite;
use playdate::system::System;
use playdate::display::Display;

#[test]
fn color_codes_match_the_device_convention() {
    assert_eq!(Color::Solid(SolidColor::Black).code(), 0);
    assert_eq!(Color::Solid(SolidColor::White).code(), 1);
    assert_eq!(Color::Solid(SolidColor::Clear).code(), 2);
    assert_eq!(Color::Solid(SolidColor::XOR).code(), 3);
    assert_eq!(Color::Pattern(0x4000).code(), 0x4000);
}

#[test]
fn drawing_calls_reach_the_device() {
    let mut dev = Device::new(1 << 16);
    let gfx = Graphics::new(30);
    gfx.clear(&mut dev, &Color::Solid(SolidColor::White));
    gfx.draw_line(&mut dev, 0, 0, 10, 10, 1, &Color::Solid(SolidColor::Black));
    gfx.fill_triangle(&mut dev, 0, 0, 5, 5, 0, 5, &Color::Solid(SolidColor::Black));
    gfx.draw_rect(&mut dev, 1, 1, 4, 4, &Color::Solid(SolidColor::Black));
    gfx.fill_rect(&mut dev, 2, 2, 2, 2, &Color::Solid(SolidColor::Black));
    gfx.display(&mut dev);
    assert_eq!(dev.draw_calls, 6);
}

#[test]
fn graphics_registers_hold_what_was_set() {
    let mut dev = Device::new(1 << 16);
    let gfx = Graphics::new(30);
    gfx.set_background_color(&mut dev, SolidColor::White);
    assert_eq!(dev.background_color, 1);
    gfx.set_draw_offset(&mut dev, 4, -2);
    assert_eq!((dev.draw_offset_x, dev.draw_offset_y), (4, -2));
    gfx.set_draw_mode(&mut dev, BitmapDrawMode::Inverted);
    assert_eq!(dev.draw_mode, 7);
    gfx.set_line_cap_style(&mut dev, LineCapStyle::Round);
    assert_eq!(dev.line_cap, 2);
    gfx.set_text_tracking(&mut dev, 3);
    assert_eq!(dev.text_tracking, 3);
    gfx.set_clip_rect(&mut dev, 1, 2, 3, 4);
    assert_eq!(dev.clip_rect, Some(ClipRect { x: 1, y: 2, width: 3, height: 4 }));
    gfx.clear_clip_rect(&mut dev);
    assert_eq!(dev.clip_rect, None);
}

#[test]
fn context_stack_pushes_and_pops() {
    let mut dev = Device::new(1 << 16);
    let gfx = Graphics::new(30);
    let bitmap = Bitmap::new(&mut dev, 8, 8, &Color::Solid(SolidColor::White)).unwrap();
    gfx.push_context(&mut dev, &bitmap);
    assert_eq!(dev.context_stack.len(), 1);
    gfx.pop_context(&mut dev);
    assert_eq!(dev.context_stack.len(), 0);
    gfx.pop_context(&mut dev);
    assert_eq!(dev.context_stack.len(), 0);
    bitmap.release(&mut dev);
}

#[test]
fn draw_text_measures_and_rejects_nul() {
    let mut dev = Device::new(1 << 16);
    let gfx = Graphics::new(30);
    let width = gfx.draw_text(&mut dev, &b"score".to_vec(), 0, 0).unwrap();
    assert_eq!(width, 5);
    assert_eq!(dev.draw_calls, 1);
    let bad = gfx.draw_text(&mut dev, &vec![b'a', 0], 0, 0);
    assert_eq!(bad.err(), Some(PdError::Encoding));
    assert_eq!(dev.draw_calls, 1);
}

#[test]
fn sprite_properties_round_trip() {
    let mut dev = Device::new(1 << 16);
    let mut sprite = Sprite::new(&mut dev).unwrap();
    assert_eq!(sprite.tag(), 0);
    assert!(sprite.is_visible());
    assert!(sprite.updates_enabled());
    sprite.set_tag(7);
    assert_eq!(sprite.tag(), 7);
    sprite.set_z_index(-3);
    assert_eq!(sprite.z_index, -3);
    sprite.set_visible(false);
    assert!(!sprite.is_visible());
    sprite.set_updates_enabled(false);
    assert!(!sprite.updates_enabled());
    sprite.set_image_flip(BitmapFlip::FlippedX);
    assert_eq!(sprite.image_flip(), BitmapFlip::FlippedX);
    sprite.set_opaque(true);
    sprite.mark_dirty();
    assert!(sprite.dirty);
    sprite.set_ignores_draw_offset(true);
    sprite.set_clip_rect(ClipRect { x: 0, y: 0, width: 8, height: 8 });
    sprite.clear_clip_rect();
    assert_eq!(sprite.clip_rect, None);
    sprite.set_update_function(true);
    assert!(sprite.update_function_set);
    sprite.release(&mut dev);
}

#[test]
fn sprite_image_is_recorded_not_owned() {
    let mut dev = Device::new(1 << 16);
    let bitmap = Bitmap::new(&mut dev, 8, 8, &Color::Solid(SolidColor::Clear)).unwrap();
    let mut sprite = Sprite::new(&mut dev).unwrap();
    assert_eq!(sprite.image(), None);
    sprite.set_image(&bitmap, BitmapFlip::Unflipped);
    assert!(sprite.image().is_some());
    sprite.release(&mut dev);
    // The sprite never owned the bitmap: exactly one free so far.
    assert_eq!(dev.free_calls, 1);
    bitmap.release(&mut dev);
    assert_eq!(dev.free_calls, 2);
}

#[test]
fn sprite_copy_carries_properties() {
    let mut dev = Device::new(1 << 16);
    let mut sprite = Sprite::new(&mut dev).unwrap();
    sprite.set_tag(9);
    sprite.set_visible(false);
    let twin = Sprite::copy(&mut dev, &sprite).unwrap();
    assert_eq!(twin.tag(), 9);
    assert!(!twin.is_visible());
    assert_ne!(twin.handle, sprite.handle);
    sprite.release(&mut dev);
    twin.release(&mut dev);
}

#[test]
fn file_player_plays_only_when_loaded() {
    let mut dev = Device::new(1 << 16);
    let mut player = FilePlayer::new(&mut dev).unwrap();
    assert_eq!(player.play(1), 0);
    assert!(!player.is_playing());
    let missing = player.load_into_player(&mut dev, &b"tune.mp3".to_vec());
    assert!(missing.is_err());
    assert!(dev.add_asset(b"tune.mp3".to_vec(), vec![1]));
    player.load_into_player(&mut dev, &b"tune.mp3".to_vec()).unwrap();
    assert_eq!(player.play(1), 1);
    assert!(player.is_playing());
    player.pause();
    assert!(!player.is_playing());
    player.release(&mut dev);
}

#[test]
fn file_player_underrun_can_stop_playback() {
    let mut dev = Device::new(1 << 16);
    assert!(dev.add_asset(b"a.mp3".to_vec(), vec![1]));
    let mut player = FilePlayer::new(&mut dev).unwrap();
    player.load_into_player(&mut dev, &b"a.mp3".to_vec()).unwrap();
    player.play(0);
    assert!(!player.did_underrun());
    player.set_stop_on_underrun(true);
    player.mark_underrun();
    assert!(player.did_underrun());
    assert!(!player.is_playing());
    player.release(&mut dev);
}

#[test]
fn sample_player_needs_a_sample() {
    let mut dev = Device::new(1 << 16);
    let mut player = SamplePlayer::new(&mut dev).unwrap();
    assert_eq!(player.play(1), 0);
    let sample = Sample::new(&mut dev, 4).unwrap();
    player.set_sample(&sample);
    assert_eq!(player.play(1), 1);
    assert!(player.is_playing());
    player.stop();
    assert!(!player.is_playing());
    player.release(&mut dev);
    sample.release(&mut dev);
}

#[test]
fn system_samples_the_device_registers() {
    let mut dev = Device::new(1 << 16);
    let sys = System::new(10);
    dev.set_buttons(0b101, 0b001, 0b100);
    assert_eq!(sys.get_button_state(&dev), (0b101, 0b001, 0b100));
    dev.set_time_ms(1234);
    assert_eq!(sys.get_current_time_ms(&dev), 1234);
    dev.set_epoch(777, 250);
    assert_eq!(sys.get_seconds_since_epoch(&dev), (777, 250));
    dev.set_crank_docked(true);
    assert!(sys.is_crank_docked(&dev));
    dev.set_system_flipped(true);
    assert!(sys.get_flipped(&dev));
    sys.set_peripherals_enabled(&mut dev, 0b11);
    assert_eq!(dev.peripherals_mask, 0b11);
    sys.draw_fps(&mut dev, 0, 0);
    assert_eq!(dev.draw_calls, 1);
}

#[test]
fn console_logging_is_best_effort() {
    let mut dev = Device::new(1 << 16);
    let sys = System::new(10);
    sys.log_to_console(&mut dev, &b"hello".to_vec());
    assert_eq!(dev.log.len(), 1);
    assert_eq!(dev.log[0], vec![b'h', b'e', b'l', b'l', b'o', 0]);
    sys.log_to_console(&mut dev, &vec![b'x', 0]);
    assert_eq!(dev.log.len(), 1);
    sys.error(&mut dev, &b"bad".to_vec());
    assert_eq!(dev.error_log.len(), 1);
    sys.error(&mut dev, &vec![0]);
    assert_eq!(dev.error_log.len(), 1);
}

#[test]
fn display_registers_hold_what_was_set() {
    let mut dev = Device::new(1 << 16);
    let display = Display::new(50);
    assert_eq!(display.width(), 400);
    assert_eq!(display.height(), 240);
    display.set_refresh_rate(&mut dev, 50);
    assert_eq!(dev.refresh_rate, 50);
    display.set_inverted(&mut dev, 1);
    assert!(dev.display_inverted);
    display.set_inverted(&mut dev, 0);
    assert!(!dev.display_inverted);
    display.set_scale(&mut dev, 2);
    assert_eq!(dev.display_scale, 2);
    display.set_mosaic(&mut dev, 3, 4);
    assert_eq!((dev.display_mosaic_x, dev.display_mosaic_y), (3, 4));
    display.set_flipped(&mut dev, 1, 0);
    assert_eq!((dev.display_flipped_x, dev.display_flipped_y), (1, 0));
    display.set_offset(&mut dev, -5, 6);
    assert_eq!((dev.display_offset_x, dev.display_offset_y), (-5, 6));
}

#[test]
fn bitmap_load_into_follows_assets() {
    let mut dev = Device::new(1 << 16);
    assert!(dev.add_asset(b"bg.png".to_vec(), vec![1, 2]));
    let bitmap = Bitmap::load(&mut dev, &b"bg.png".to_vec()).unwrap();
    let missing = bitmap.load_into(&mut dev, &b"other.png".to_vec());
    assert!(missing.is_err());
    bitmap.load_into(&mut dev, &b"bg.png".to_vec()).unwrap();
    bitmap.draw(&mut dev, 0, 0, BitmapFlip::Unflipped);
    bitmap.tile(&mut dev, 0, 0, 16, 16, BitmapFlip::FlippedY);
    bitmap.clear(&mut dev, &Color::Solid(SolidColor::White));
    assert_eq!(dev.draw_calls, 3);
    bitmap.release(&mut dev);
}

#[test]
fn sprite_geometry_tracks_moves_and_bounds() {
    let mut dev = Device::new(1 << 16);
    let mut sprite = Sprite::new(&mut dev).unwrap();
    assert_eq!(sprite.get_position(), (0, 0));
    sprite.move_to(10, 20);
    assert_eq!(sprite.get_position(), (10, 20));
    sprite.move_by(-3, 5);
    assert_eq!(sprite.get_position(), (7, 25));
    sprite.set_size(16, 8);
    sprite.set_bounds(PDRect { x: 1, y: 2, width: 3, height: 4 });
    let b = sprite.bounds();
    assert_eq!((b.x, b.y, b.width, b.height), (1, 2, 3, 4));
    sprite.release(&mut dev);
}
