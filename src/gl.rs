use vstd::prelude::*;

verus! {

pub const TEXTURE_RECTANGLE_ARB: u32 = 0x84F5;
pub const TEXTURE_MAG_FILTER: u32 = 0x2800;
pub const TEXTURE_MIN_FILTER: u32 = 0x2801;
pub const TEXTURE_WRAP_S: u32 = 0x2802;
pub const TEXTURE_WRAP_T: u32 = 0x2803;
pub const NEAREST: i32 = 0x2600;
pub const LINEAR: i32 = 0x2601;
pub const CLAMP_TO_EDGE: i32 = 0x812F;
pub const FRAMEBUFFER: u32 = 0x8D40;
pub const COLOR_ATTACHMENT0: u32 = 0x8CE0;
pub const FRAMEBUFFER_COMPLETE: u32 = 0x8CD5;
pub const RGBA: u32 = 0x1908;
pub const BGRA: u32 = 0x80E1;
pub const UNSIGNED_INT_8_8_8_8_REV: u32 = 0x8367;

/// One GL call that reports nothing back.
#[derive(Clone, Copy, Debug, PartialEq, Eq, Structural)]
pub enum GlCall {
    Enable { capability: u32 },
    BindTexture { target: u32, texture: u32 },
    TexParameterI { target: u32, name: u32, value: i32 },
    BindFramebuffer { target: u32, framebuffer: u32 },
    FramebufferTexture2D {
        target: u32,
        attachment: u32,
        texture_target: u32,
        texture: u32,
        level: i32,
    },
    /// Blocks until every command submitted to the current context has completed.
    Finish,
}

/// The calls that configure a freshly generated texture for wrapping a
/// surface: rectangular addressing, clamped at the edges, smoothed when
/// magnified and sharp when minified. The texture stays bound.
pub open spec fn texture_setup(texture: u32) -> Seq<GlCall> {
    seq![
        GlCall::Enable { capability: TEXTURE_RECTANGLE_ARB },
        GlCall::BindTexture { target: TEXTURE_RECTANGLE_ARB, texture },
        GlCall::TexParameterI { target: TEXTURE_RECTANGLE_ARB, name: TEXTURE_WRAP_S, value: CLAMP_TO_EDGE },
        GlCall::TexParameterI { target: TEXTURE_RECTANGLE_ARB, name: TEXTURE_WRAP_T, value: CLAMP_TO_EDGE },
        GlCall::TexParameterI { target: TEXTURE_RECTANGLE_ARB, name: TEXTURE_MAG_FILTER, value: LINEAR },
        GlCall::TexParameterI { target: TEXTURE_RECTANGLE_ARB, name: TEXTURE_MIN_FILTER, value: NEAREST },
    ]
}

/// The calls that unbind the texture from the texture unit and attach it as
/// the bound framebuffer's only color attachment.
pub open spec fn texture_attachment(texture: u32) -> Seq<GlCall> {
    seq![
        GlCall::BindTexture { target: TEXTURE_RECTANGLE_ARB, texture: 0 },
        GlCall::FramebufferTexture2D {
            target: FRAMEBUFFER,
            attachment: COLOR_ATTACHMENT0,
            texture_target: TEXTURE_RECTANGLE_ARB,
            texture,
            level: 0,
        },
    ]
}

/// The calls that configure `texture`, a name just generated by the driver.
pub fn init_texture(texture: u32) -> (calls: Vec<GlCall>)
    ensures
        calls@ == texture_setup(texture),
{
    let target = TEXTURE_RECTANGLE_ARB;
    let calls = vec![
        GlCall::Enable { capability: target },
        GlCall::BindTexture { target, texture },
        GlCall::TexParameterI { target, name: TEXTURE_WRAP_S, value: CLAMP_TO_EDGE },
        GlCall::TexParameterI { target, name: TEXTURE_WRAP_T, value: CLAMP_TO_EDGE },
        GlCall::TexParameterI { target, name: TEXTURE_MAG_FILTER, value: LINEAR },
        GlCall::TexParameterI { target, name: TEXTURE_MIN_FILTER, value: NEAREST },
    ];
    proof {
        assert(calls@ =~= texture_setup(texture));
    }
    calls
}

/// The calls that attach `texture` to the bound framebuffer. Whether the
/// framebuffer is then complete is for the driver to report.
pub fn bind_texture_to_framebuffer(texture: u32) -> (calls: Vec<GlCall>)
    ensures
        calls@ == texture_attachment(texture),
{
    let calls = vec![
        GlCall::BindTexture { target: TEXTURE_RECTANGLE_ARB, texture: 0 },
        GlCall::FramebufferTexture2D {
            target: FRAMEBUFFER,
            attachment: COLOR_ATTACHMENT0,
            texture_target: TEXTURE_RECTANGLE_ARB,
            texture,
            level: 0,
        },
    ];
    proof {
        assert(calls@ =~= texture_attachment(texture));
    }
    calls
}

/// The calls a flush issues: one full synchronisation point.
pub open spec fn flush_calls() -> Seq<GlCall> {
    seq![GlCall::Finish]
}

/// How many submitted commands are still outstanding after `calls` are
/// issued with `pending` outstanding: `Finish` waits for all of them, any
/// other call submits one more.
pub open spec fn pending_after(pending: nat, calls: Seq<GlCall>) -> nat
    decreases calls.len(),
{
    if calls.len() == 0 {
        pending
    } else {
        let next = if calls[0] is Finish { 0 } else { pending + 1 };
        pending_after(next, calls.drop_first())
    }
}

/// Flushing twice in a row leaves the same outstanding work as flushing once.
pub proof fn lemma_flush_idempotent(pending: nat)
    ensures
        pending_after(pending_after(pending, flush_calls()), flush_calls())
            == pending_after(pending, flush_calls()),
        pending_after(pending, flush_calls()) == 0,
{
    reveal_with_fuel(pending_after, 2);
    assert(flush_calls().drop_first() =~= Seq::<GlCall>::empty());
}

} // verus!
