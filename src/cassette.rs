//! The cassette animation: a four-frame spinning wheel that moves only
//! while playing.

use vstd::prelude::*;

verus! {

/// Rows of the cassette drawing.
pub open spec fn spec_art() -> Seq<&'static str> {
    seq![
        "┌─────────────────┐",
        "│  ████████████   │",
        "│ ██            ██│",
        "│██              ██│",
        "│██    ┌────┐    ██│",
        "│██    │    │    ██│",
        "│██    │    │    ██│",
        "│██    └────┘    ██│",
        "│██              ██│",
        "│ ██            ██│",
        "│  ████████████   │",
        "└─────────────────┘",
    ]
}

/// (row, column) cells of the drawing where the wheels turn.
pub open spec fn spec_wheel_cells() -> Seq<(usize, usize)> {
    seq![(4usize, 6usize), (4usize, 11usize), (7usize, 6usize), (7usize, 11usize)]
}

/// The wheel glyph shown in each animation frame.
pub open spec fn spec_wheel_char(frame: u8) -> char {
    if frame == 0 {
        '|'
    } else if frame == 1 {
        '/'
    } else if frame == 2 {
        '-'
    } else if frame == 3 {
        '\\'
    } else {
        '|'
    }
}

/// State of the animated cassette.
#[derive(Clone, Debug)]
pub struct CassetteWidget {
    frame: u8,
    is_playing: bool,
}

impl CassetteWidget {
    pub closed spec fn spec_frame(&self) -> u8 {
        self.frame
    }

    pub closed spec fn spec_playing(&self) -> bool {
        self.is_playing
    }

    pub closed spec fn wf(&self) -> bool {
        self.frame < 4
    }

    /// A stopped cassette in its first frame.
    pub fn new() -> (r: Self)
        ensures
            r.wf(),
            r.spec_frame() == 0,
            !r.spec_playing(),
    {
        CassetteWidget { frame: 0, is_playing: false }
    }

    pub fn set_playing(&mut self, playing: bool)
        ensures
            final(self).spec_playing() == playing,
            final(self).spec_frame() == old(self).spec_frame(),
            final(self).wf() == old(self).wf(),
    {
        self.is_playing = playing;
    }

    pub fn is_playing(&self) -> (r: bool)
        ensures
            r == self.spec_playing(),
    {
        self.is_playing
    }

    pub fn frame(&self) -> (r: u8)
        ensures
            r == self.spec_frame(),
    {
        self.frame
    }

    /// One animation tick: the wheel turns a quarter while playing.
    pub fn update(&mut self)
        requires
            old(self).wf(),
        ensures
            final(self).wf(),
            final(self).spec_playing() == old(self).spec_playing(),
            final(self).spec_frame() == if old(self).spec_playing() {
                ((old(self).spec_frame() + 1) % 4) as u8
            } else {
                old(self).spec_frame()
            },
    {
        if self.is_playing {
            self.frame = (self.frame + 1) % 4;
        }
    }

    /// Glyph of the wheels in the current frame.
    pub fn get_wheel_char(&self) -> (r: char)
        ensures
            r == spec_wheel_char(self.spec_frame()),
    {
        match self.frame {
            0 => '|',
            1 => '/',
            2 => '-',
            3 => '\\',
            _ => '|',
        }
    }

    /// The drawing, one string per row.
    pub fn get_cassette_art(&self) -> (r: Vec<&'static str>)
        ensures
            r@ == spec_art(),
    {
        let mut v: Vec<&'static str> = Vec::new();
        v.push("┌─────────────────┐");
        v.push("│  ████████████   │");
        v.push("│ ██            ██│");
        v.push("│██              ██│");
        v.push("│██    ┌────┐    ██│");
        v.push("│██    │    │    ██│");
        v.push("│██    │    │    ██│");
        v.push("│██    └────┘    ██│");
        v.push("│██              ██│");
        v.push("│ ██            ██│");
        v.push("│  ████████████   │");
        v.push("└─────────────────┘");
        assert(v@ =~= spec_art());
        v
    }

    /// Cells of the drawing that show the wheel glyph while playing.
    pub fn get_wheel_positions(&self) -> (r: Vec<(usize, usize)>)
        ensures
            r@ == spec_wheel_cells(),
    {
        let mut v: Vec<(usize, usize)> = Vec::new();
        v.push((4, 6));
        v.push((4, 11));
        v.push((7, 6));
        v.push((7, 11));
        assert(v@ =~= spec_wheel_cells());
        v
    }

    /// Whether cell (`row`, `col`) shows the turning wheel just now.
    pub fn shows_wheel_at(&self, row: usize, col: usize) -> (r: bool)
        ensures
            r == (self.spec_playing() && spec_wheel_cells().contains((row, col))),
    {
        let cells = self.get_wheel_positions();
        let mut found = false;
        let mut i: usize = 0;
        while i < cells.len()
            invariant
                cells@ == spec_wheel_cells(),
                i <= cells@.len(),
                found == exists|j: int| 0 <= j < i && cells@[j] == (row, col),
            decreases cells@.len() - i,
        {
            if cells[i].0 == row && cells[i].1 == col {
                found = true;
            }
            i = i + 1;
        }
        proof {
            if found {
                let j = choose|j: int| 0 <= j < i && cells@[j] == (row, col);
                assert(spec_wheel_cells()[j] == (row, col));
            }
        }
        self.is_playing && found
    }
}

} // verus!
