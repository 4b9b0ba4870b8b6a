use pet2d::{next_frame, Context};

#[test]
fn next_frame_is_pending_until_a_frame_is_presented() {
    let mut ctx = Context::new();
    let mut wait = next_frame();
    assert!(!wait.poll(&ctx));
    // polling again in the same frame keeps waiting
    assert!(!wait.poll(&ctx));
    ctx.finish_frame();
    assert!(wait.poll(&ctx));
    // once resolved it stays resolved
    ctx.finish_frame();
    assert!(wait.poll(&ctx));
}

#[test]
fn next_frame_target_is_captured_on_first_poll() {
    let mut ctx = Context::new();
    let mut wait = next_frame();
    // frames presented before the first poll do not count
    ctx.finish_frame();
    ctx.finish_frame();
    assert!(!wait.poll(&ctx));
    ctx.finish_frame();
    assert!(wait.poll(&ctx));
}
