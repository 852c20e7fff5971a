use spectral::{AmxCtx, AmxErr, AmxHandle, Opcode};

#[test]
fn enable_twice_returns_already_enabled() {
    let mut ctx = AmxCtx::new(true);
    let first = AmxHandle::get(&mut ctx);
    assert!(first.is_ok());
    assert!(ctx.is_enabled());
    let second = AmxHandle::get(&mut ctx);
    assert_eq!(second.err(), Some(AmxErr::AlreadyEnabled));
    assert!(ctx.is_enabled());
    assert_eq!(ctx.log().len(), 1);
}

#[test]
fn enable_after_release_succeeds() {
    let mut ctx = AmxCtx::new(true);
    let h = AmxHandle::get(&mut ctx).unwrap();
    h.release(&mut ctx);
    assert!(!ctx.is_enabled());
    let again = AmxHandle::get(&mut ctx);
    assert!(again.is_ok());
    assert!(ctx.is_enabled());
    again.unwrap().release(&mut ctx);
    assert!(!ctx.is_enabled());
    assert_eq!(ctx.log().len(), 4);
}

#[test]
fn unsupported_target_issues_nothing() {
    let mut ctx = AmxCtx::new(false);
    let r = AmxHandle::get(&mut ctx);
    assert_eq!(r.err(), Some(AmxErr::Unsupported));
    assert!(ctx.log().is_empty());
    assert!(!ctx.is_enabled());
    assert!(!ctx.is_supported());
    let r = AmxHandle::get(&mut ctx);
    assert_eq!(r.err(), Some(AmxErr::Unsupported));
    assert!(ctx.log().is_empty());
}

#[test]
fn release_issues_the_disable_instruction() {
    let mut ctx = AmxCtx::new(true);
    assert!(ctx.is_supported());
    assert!(ctx.log().is_empty());
    let h = AmxHandle::get(&mut ctx).unwrap();
    assert_eq!(ctx.log().len(), 1);
    assert_eq!(ctx.log()[0].op(), Opcode::Config);
    assert_eq!(ctx.log()[0].operand(), 0);
    h.release(&mut ctx);
    assert_eq!(ctx.log().len(), 2);
    assert_eq!(ctx.log()[1].op(), Opcode::Config);
    assert_eq!(ctx.log()[1].operand(), 1);
}
