//! Renderer configuration, the choice of execution backend, and the cursor
//! that walks the framebuffer one pixel batch at a time.
use vstd::prelude::*;

verus! {

/// Where the per-pixel render tasks run.
#[derive(Debug, Clone, Copy, PartialEq, Eq, Structural)]
pub enum BackendConfig {
    /// Renderer running on a single thread.
    CPUDrivenS,
    /// Renderer running on the given number of threads.
    CPUDrivenM(u32),
}

/// How much the renderer reports while it runs.
#[derive(Debug, Clone, Copy, PartialEq, Eq, Structural)]
pub enum DebugLevel {
    /// Configuration summary and a progress bar.
    Full,
    /// The progress fraction only, one number per pixel.
    Porting,
    /// Nothing.
    Silent,
}

/// Renderer configuration.
#[derive(Debug, Clone, Copy, PartialEq, Eq, Structural)]
pub struct RendererConfig {
    /// Renderer backend.
    pub backend: BackendConfig,
    /// What the renderer reports while it runs.
    pub dbg_level: DebugLevel,
    /// The maximum number of ray bounces.
    pub max_depth: u32,
    /// The number of samples per pixel.
    pub spp: u32,
}

/// Configuration of the single-threaded CPU backend.
#[derive(Debug, Clone, Copy, PartialEq, Eq, Structural)]
pub struct STDrivenRendererConfig {
    /// The size of the framebuffer: the number of pixels.
    pub fb_size: usize,
    /// The maximum number of ray bounces.
    pub max_depth: u32,
}

/// Why a backend could not be set up.
#[derive(Debug, Clone, Copy, PartialEq, Eq, Structural)]
pub enum BackendError {
    /// The multi-threaded backend was asked for, with this many threads; it
    /// does not exist yet.
    Unimplemented(u32),
}

impl RendererConfig {
    /// Sets up the backend for a `screen = (width, height)` render. Only the
    /// single-threaded backend exists: it gets a framebuffer of one cell per
    /// pixel and this configuration's bounce depth. Asking for the
    /// multi-threaded one fails here, before any task is submitted.
    pub fn init_backend(&self, screen: (u32, u32)) -> (r: Result<STDrivenRendererConfig, BackendError>)
        requires
            screen.0 as nat * screen.1 as nat <= usize::MAX,
        ensures
            match self.backend {
                BackendConfig::CPUDrivenS => r == Ok::<STDrivenRendererConfig, BackendError>(
                    STDrivenRendererConfig {
                        fb_size: (screen.0 as nat * screen.1 as nat) as usize,
                        max_depth: self.max_depth,
                    },
                ),
                BackendConfig::CPUDrivenM(n) => r == Err::<STDrivenRendererConfig, BackendError>(
                    BackendError::Unimplemented(n),
                ),
            },
    {
        match self.backend {
            BackendConfig::CPUDrivenS => Ok(
                STDrivenRendererConfig {
                    fb_size: (screen.0 as usize) * (screen.1 as usize),
                    max_depth: self.max_depth,
                },
            ),
            BackendConfig::CPUDrivenM(n) => Err(BackendError::Unimplemented(n)),
        }
    }
}

/// One pixel of the framebuffer: its column, its row, and its cell.
#[derive(Debug, Clone, Copy, PartialEq, Eq, Structural)]
pub struct Pixel {
    pub x: u32,
    pub y: u32,
    pub index: usize,
}

/// The pixel that comes `i`-th in row-major order on a screen `width`
/// pixels wide.
pub open spec fn pixel_at(width: nat, i: nat) -> Pixel
    recommends
        width > 0,
{
    Pixel { x: (i % width) as u32, y: (i / width) as u32, index: i as usize }
}

/// Walks the pixels of a `screen = (width, height)` in row-major order, one
/// per call of `next`, then reports that it is exhausted.
pub struct PixelCursor {
    pub screen: (u32, u32),
    /// How many pixels have been handed out.
    pub counter: usize,
    /// `width * height`: where the walk ends.
    pub ending: usize,
}

impl PixelCursor {
    pub open spec fn wf(&self) -> bool {
        &&& self.ending as nat == self.screen.0 as nat * self.screen.1 as nat
        &&& self.counter <= self.ending
    }

    /// A cursor at the first pixel of `screen`.
    pub fn new(screen: (u32, u32)) -> (r: PixelCursor)
        requires
            screen.0 as nat * screen.1 as nat <= usize::MAX,
        ensures
            r.wf(),
            r.screen == screen,
            r.counter == 0,
    {
        PixelCursor { screen, counter: 0, ending: (screen.0 as usize) * (screen.1 as usize) }
    }

    /// How many pixels are still to come.
    pub fn remaining(&self) -> (r: usize)
        requires
            self.wf(),
        ensures
            r == self.ending - self.counter,
    {
        self.ending - self.counter
    }

    /// The next pixel in row-major order, `index == y * width + x`, or
    /// `None` once all `width * height` pixels have been handed out.
    pub fn next(&mut self) -> (r: Option<Pixel>)
        requires
            old(self).wf(),
        ensures
            final(self).wf(),
            final(self).screen == old(self).screen,
            final(self).ending == old(self).ending,
            old(self).counter == old(self).ending ==> r is None && final(self).counter == old(self).counter,
            old(self).counter < old(self).ending ==> {
                &&& r == Some(pixel_at(old(self).screen.0 as nat, old(self).counter as nat))
                &&& final(self).counter == old(self).counter + 1
            },
            r matches Some(p) ==> {
                &&& p.x < old(self).screen.0
                &&& p.y < old(self).screen.1
                &&& p.index as nat == p.y as nat * old(self).screen.0 as nat + p.x as nat
            },
    {
        if self.counter == self.ending {
            return None;
        }
        let w = self.screen.0 as usize;
        let i = self.counter;
        proof {
            let wn = self.screen.0 as nat;
            let hn = self.screen.1 as nat;
            let iv = i as nat;
            assert(wn > 0) by (nonlinear_arith)
                requires
                    iv < wn * hn,
            ;
            assert(iv / wn < hn && iv % wn < wn && iv == (iv / wn) * wn + iv % wn) by (nonlinear_arith)
                requires
                    iv < wn * hn,
                    wn > 0,
            ;
        }
        let p = Pixel { x: (i % w) as u32, y: (i / w) as u32, index: i };
        self.counter = i + 1;
        Some(p)
    }
}

} // verus!
