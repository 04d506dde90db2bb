//! The virtual terminal backend: lets a cell-buffer renderer draw against
//! the remote peer's negotiated size rather than any local terminal, with
//! the rendered bytes delivered into the output bridge. Both character
//! and pixel geometry are updatable in place, so a resize never loses the
//! renderer's diff state.

use vstd::prelude::*;

use crate::ssh::TermWriter;

verus! {

/// Character geometry of the remote terminal.
#[derive(Debug, Clone, Copy, PartialEq, Eq, Structural)]
pub struct Size {
    pub width: u16,
    pub height: u16,
}

/// Character and pixel geometry together, for protocols that need the
/// cell pitch.
#[derive(Debug, Clone, Copy, PartialEq, Eq, Structural)]
pub struct WindowSize {
    pub columns_rows: Size,
    pub pixels: Size,
}

/// A renderer backend sized by the negotiated PTY geometry, writing into
/// the session's output bridge instead of a file descriptor.
pub struct SshBackend {
    /// The output bridge that rendered bytes are delivered into.
    pub writer: TermWriter,
    /// Character dimensions (columns, rows).
    pub dims: (u16, u16),
    /// Pixel dimensions (width, height); zero when the peer cannot
    /// report them.
    pub pixel: (u16, u16),
}

impl SshBackend {
    /// The bytes buffered in the output bridge.
    pub closed spec fn buffered(&self) -> Seq<u8> {
        self.writer.buffered()
    }

    /// The byte runs written since the last completed flush.
    pub closed spec fn writes(&self) -> Seq<Seq<u8>> {
        self.writer.writes()
    }

    /// The bridge's buffer matches its write history.
    pub closed spec fn wf(&self) -> bool {
        self.writer.wf()
    }

    /// Wrap an output bridge with the initial negotiated geometry.
    pub fn new(
        writer: TermWriter,
        init_width: u16,
        init_height: u16,
        init_pixel_width: u16,
        init_pixel_height: u16,
    ) -> (r: SshBackend)
        ensures
            r.dims == (init_width, init_height),
            r.pixel == (init_pixel_width, init_pixel_height),
            r.writer == writer,
    {
        SshBackend { writer, dims: (init_width, init_height), pixel: (init_pixel_width, init_pixel_height) }
    }

    /// The current character geometry.
    pub fn size(&self) -> (r: Size)
        ensures
            r.width == self.dims.0,
            r.height == self.dims.1,
    {
        Size { width: self.dims.0, height: self.dims.1 }
    }

    /// Both character and pixel geometry.
    pub fn window_size(&self) -> (r: WindowSize)
        ensures
            r.columns_rows == (Size { width: self.dims.0, height: self.dims.1 }),
            r.pixels == (Size { width: self.pixel.0, height: self.pixel.1 }),
    {
        WindowSize {
            columns_rows: Size { width: self.dims.0, height: self.dims.1 },
            pixels: Size { width: self.pixel.0, height: self.pixel.1 },
        }
    }

    /// Update the character geometry in place, keeping the renderer's
    /// buffered output and the pixel geometry.
    pub fn set_dims(&mut self, width: u16, height: u16)
        ensures
            final(self).dims == (width, height),
            final(self).pixel == old(self).pixel,
            final(self).writer == old(self).writer,
    {
        self.dims = (width, height);
    }

    /// Update the pixel geometry in place.
    pub fn set_pixel(&mut self, width: u16, height: u16)
        ensures
            final(self).pixel == (width, height),
            final(self).dims == old(self).dims,
            final(self).writer == old(self).writer,
    {
        self.pixel = (width, height);
    }

    /// Buffer one run of rendered bytes into the output bridge.
    pub fn write_bytes(&mut self, buf: &[u8]) -> (n: usize)
        requires
            old(self).wf(),
            old(self).buffered().len() + buf@.len() <= usize::MAX,
        ensures
            final(self).wf(),
            final(self).buffered() == old(self).buffered() + buf@,
            final(self).writes() == old(self).writes().push(buf@),
            final(self).dims == old(self).dims,
            final(self).pixel == old(self).pixel,
            n == buf@.len(),
    {
        self.writer.write(buf)
    }

    /// Copy the buffered bytes out as one outbound frame payload.
    pub fn frame(&self) -> (r: Vec<u8>)
        requires
            self.wf(),
        ensures
            r@ == self.buffered(),
            r@ == crate::ssh::spec_concat(self.writes()),
    {
        self.writer.frame()
    }

    /// Clear the bridge once the transport acknowledged the frame.
    pub fn ack_flush(&mut self)
        ensures
            final(self).wf(),
            final(self).buffered() == Seq::<u8>::empty(),
            final(self).writes() == Seq::<Seq<u8>>::empty(),
            final(self).dims == old(self).dims,
            final(self).pixel == old(self).pixel,
    {
        self.writer.ack_flush()
    }

    /// How many bytes are buffered.
    pub fn pending(&self) -> (n: usize)
        ensures
            n == self.buffered().len(),
    {
        self.writer.pending()
    }
}

} // verus!
