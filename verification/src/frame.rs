//! The command encoding of a frame: layers are recorded in render passes of one
//! encoder at a time, and the frame is written on the screen once.

use vstd::prelude::*;

verus! {

/// A step of the encoding, for the caller to perform in order.
#[derive(Clone, Copy, Debug, PartialEq, Eq, Structural)]
pub enum EncoderStep {
    /// Finish the current encoder and submit its commands.
    Submit,
    /// Create a new command encoder.
    CreateEncoder,
    /// Begin the render pass of a layer; `clear_depth` tells whether the depth
    /// buffer is cleared or loaded.
    BeginLayer { clear_depth: bool },
    /// Draw the frame on the screen through the post processor.
    DrawOnScreen,
}

/// The state of a frame: whether an encoder is open and whether the frame was
/// already written on the screen.
#[derive(Clone, Copy, Debug, PartialEq, Eq, Structural)]
pub struct Frame {
    encoding: bool,
    drawn: bool,
}

impl Frame {
    pub closed spec fn is_encoding(&self) -> bool {
        self.encoding
    }

    pub closed spec fn is_drawn(&self) -> bool {
        self.drawn
    }

    /// A new frame: no encoder yet, nothing drawn.
    pub fn new() -> (f: Self)
        ensures
            !f.is_encoding(),
            !f.is_drawn(),
    {
        Frame { encoding: false, drawn: false }
    }

    /// Starts a layer: the commands recorded so far are submitted, a new encoder
    /// records the layer's pass, and the frame has to be drawn again.
    pub fn start_layer(&mut self, clear_depth: bool) -> (r: Vec<EncoderStep>)
        ensures
            r@ == (if old(self).is_encoding() {
                seq![EncoderStep::Submit]
            } else {
                Seq::empty()
            }) + seq![EncoderStep::CreateEncoder, EncoderStep::BeginLayer { clear_depth }],
            final(self).is_encoding(),
            !final(self).is_drawn(),
    {
        let mut r: Vec<EncoderStep> = Vec::new();
        if self.encoding {
            r.push(EncoderStep::Submit);
            self.encoding = false;
        }
        self.drawn = false;
        r.push(EncoderStep::CreateEncoder);
        self.encoding = true;
        r.push(EncoderStep::BeginLayer { clear_depth });
        assert(r@ =~= (if old(self).is_encoding() {
            seq![EncoderStep::Submit]
        } else {
            Seq::empty()
        }) + seq![EncoderStep::CreateEncoder, EncoderStep::BeginLayer { clear_depth }]);
        r
    }

    /// Writes the frame on the screen, unless it is already written and no layer
    /// was started since; the commands are then submitted.
    pub fn draw(&mut self) -> (r: Vec<EncoderStep>)
        ensures
            draw_step(*old(self), *final(self), r@),
    {
        let mut r: Vec<EncoderStep> = Vec::new();
        if self.drawn {
            return r;
        }
        if !self.encoding {
            r.push(EncoderStep::CreateEncoder);
            self.encoding = true;
        }
        r.push(EncoderStep::DrawOnScreen);
        r.push(EncoderStep::Submit);
        self.encoding = false;
        self.drawn = true;
        assert(r@ =~= (if old(self).is_encoding() {
            Seq::empty()
        } else {
            seq![EncoderStep::CreateEncoder]
        }) + seq![EncoderStep::DrawOnScreen, EncoderStep::Submit]);
        r
    }
}

/// A draw of frame `f` into `g` with steps `r`: a frame already written does
/// nothing; otherwise it is written on the screen and its commands submitted.
pub open spec fn draw_step(f: Frame, g: Frame, r: Seq<EncoderStep>) -> bool {
    if f.is_drawn() {
        r == Seq::<EncoderStep>::empty() && g == f
    } else {
        &&& r == (if f.is_encoding() {
            Seq::empty()
        } else {
            seq![EncoderStep::CreateEncoder]
        }) + seq![EncoderStep::DrawOnScreen, EncoderStep::Submit]
        &&& !g.is_encoding()
        &&& g.is_drawn()
    }
}

/// A frame is written on the screen once: after a draw, another draw does
/// nothing.
pub proof fn lemma_draw_once(f: Frame, g: Frame, r: Seq<EncoderStep>, h: Frame, s: Seq<EncoderStep>)
    requires
        draw_step(f, g, r),
        draw_step(g, h, s),
    ensures
        g.is_drawn(),
        s == Seq::<EncoderStep>::empty(),
        h == g,
{
}

} // verus!
