//! Scale modes and the generator of the expected key sequence.
use vstd::prelude::*;

verus! {

/// MIDI key number of the reference key (A0) from which offsets are counted.
pub const REFERENCE_KEY: u8 = 21;

/// Number of semitones in one octave.
pub const OCTAVE: u8 = 12;

/// The four built-in scale modes.
#[derive(Clone, Copy, Debug, PartialEq, Eq, Structural)]
pub enum ScaleMode {
    Major,
    NaturalMinor,
    HarmonicMinor,
    MelodicMinor,
}

impl ScaleMode {
    /// The seven semitone intervals of the mode within one octave.
    pub open spec fn intervals(self) -> Seq<u8> {
        match self {
            ScaleMode::Major => seq![0u8, 2u8, 4u8, 5u8, 7u8, 9u8, 11u8],
            ScaleMode::NaturalMinor => seq![0u8, 2u8, 3u8, 5u8, 7u8, 8u8, 10u8],
            ScaleMode::HarmonicMinor => seq![0u8, 2u8, 3u8, 5u8, 7u8, 8u8, 11u8],
            ScaleMode::MelodicMinor => seq![0u8, 2u8, 3u8, 5u8, 7u8, 9u8, 11u8],
        }
    }

    /// The mode's intervals as a vector.
    pub fn pattern(self) -> (r: Vec<u8>)
        ensures
            r@ == self.intervals(),
    {
        let r = match self {
            ScaleMode::Major => vec![0u8, 2, 4, 5, 7, 9, 11],
            ScaleMode::NaturalMinor => vec![0u8, 2, 3, 5, 7, 8, 10],
            ScaleMode::HarmonicMinor => vec![0u8, 2, 3, 5, 7, 8, 11],
            ScaleMode::MelodicMinor => vec![0u8, 2, 3, 5, 7, 9, 11],
        };
        assert(r@ =~= self.intervals());
        r
    }
}

/// A key sequence read as mathematical integers.
pub open spec fn as_ints(v: Seq<u8>) -> Seq<int> {
    v.map_values(|k: u8| k as int)
}

/// The keys of one octave of `pattern`, `octave` octaves above the start key,
/// which lies `offset` semitones above the reference key.
pub open spec fn octave_keys(pattern: Seq<u8>, octave: int, offset: u8) -> Seq<int> {
    pattern.map_values(|v: u8| REFERENCE_KEY + offset + OCTAVE * octave + v)
}

/// The ascending run: `octaves` octaves of `pattern`, lowest first.
pub open spec fn ascending_keys(pattern: Seq<u8>, octaves: nat, offset: u8) -> Seq<int>
    decreases octaves,
{
    if octaves == 0 {
        Seq::empty()
    } else {
        ascending_keys(pattern, (octaves - 1) as nat, offset) + octave_keys(
            pattern,
            octaves - 1,
            offset,
        )
    }
}

/// The octave-completion note that closes the ascending run.
pub open spec fn top_key(octaves: nat, offset: u8) -> int {
    REFERENCE_KEY + offset + OCTAVE * octaves
}

/// The whole expected sequence: the ascending run, its top note, and the
/// ascending run again in reverse order.
pub open spec fn expected_keys(mode: ScaleMode, octaves: nat, offset: u8) -> Seq<int> {
    let up = ascending_keys(mode.intervals(), octaves, offset);
    up.push(top_key(octaves, offset)) + up.reverse()
}

/// Every key of an ascending run of `pattern` fits in a byte.
pub open spec fn run_fits(pattern: Seq<u8>, octaves: u8, offset: u8) -> bool {
    octaves > 0 ==> forall|j: int|
        0 <= j < pattern.len() ==> REFERENCE_KEY + offset + OCTAVE * (octaves - 1) + #[trigger] pattern[j]
            <= u8::MAX
}

/// A well-formed mode pattern: seven intervals starting at zero, strictly
/// increasing, all below the octave.
pub open spec fn is_pattern(p: Seq<u8>) -> bool {
    &&& p.len() == 7
    &&& p[0] == 0
    &&& forall|a: int, b: int| 0 <= a < b < p.len() ==> p[a] < p[b]
    &&& forall|a: int| 0 <= a < p.len() ==> p[a] < OCTAVE
}

/// Each of the four modes has a well-formed pattern.
pub proof fn lemma_mode_pattern(mode: ScaleMode)
    ensures
        is_pattern(mode.intervals()),
{
}

pub proof fn lemma_ascending_len(pattern: Seq<u8>, octaves: nat, offset: u8)
    ensures
        ascending_keys(pattern, octaves, offset).len() == octaves * pattern.len(),
    decreases octaves,
{
    if octaves > 0 {
        lemma_ascending_len(pattern, (octaves - 1) as nat, offset);
        assert(octave_keys(pattern, octaves - 1, offset).len() == pattern.len());
        assert((octaves - 1) * pattern.len() + pattern.len() == octaves * pattern.len())
            by (nonlinear_arith);
    } else {
        assert(octaves * pattern.len() == 0) by (nonlinear_arith)
            requires
                octaves == 0,
        ;
    }
}

/// The ascending run of a well-formed pattern is strictly increasing, starts
/// at the start key and ends below the top note.
pub proof fn lemma_ascending_increasing(pattern: Seq<u8>, octaves: nat, offset: u8)
    requires
        is_pattern(pattern),
    ensures
        ({
            let up = ascending_keys(pattern, octaves, offset);
            &&& forall|a: int, b: int| 0 <= a < b < up.len() ==> up[a] < up[b]
            &&& forall|a: int|
                0 <= a < up.len() ==> REFERENCE_KEY + offset <= #[trigger] up[a] < top_key(
                    octaves,
                    offset,
                )
        }),
    decreases octaves,
{
    lemma_ascending_len(pattern, octaves, offset);
    if octaves > 0 {
        let o = (octaves - 1) as nat;
        lemma_ascending_increasing(pattern, o, offset);
        lemma_ascending_len(pattern, o, offset);
        let prev = ascending_keys(pattern, o, offset);
        let last = octave_keys(pattern, o as int, offset);
        let up = ascending_keys(pattern, octaves, offset);
        assert(up == prev + last);
        assert forall|a: int|
            0 <= a < up.len() implies REFERENCE_KEY + offset <= #[trigger] up[a] < top_key(
            octaves,
            offset,
        ) by {
            if a >= prev.len() {
                assert(up[a] == last[a - prev.len()]);
            }
        }
        assert forall|a: int, b: int| 0 <= a < b < up.len() implies up[a] < up[b] by {
            if b < prev.len() {
            } else if a >= prev.len() {
                assert(up[a] == last[a - prev.len()]);
                assert(up[b] == last[b - prev.len()]);
            } else {
                assert(up[b] == last[b - prev.len()]);
                assert(prev[a] < top_key(o, offset));
            }
        }
    }
}

/// The expected sequence rises to its top note and falls back again: it is
/// non-decreasing up to and including the top note at `7 * octaves`,
/// non-increasing from there on, and ends on the key it starts with.
pub proof fn lemma_scale_arch(mode: ScaleMode, octaves: nat, offset: u8)
    requires
        1 <= octaves <= 4,
    ensures
        ({
            let s = expected_keys(mode, octaves, offset);
            &&& s.len() == 14 * octaves + 1
            &&& forall|a: int, b: int| 0 <= a <= b <= 7 * octaves ==> s[a] <= s[b]
            &&& forall|a: int, b: int| 7 * octaves <= a <= b < s.len() ==> s[a] >= s[b]
            &&& s[0] == s[s.len() - 1]
        }),
{
    let p = mode.intervals();
    lemma_mode_pattern(mode);
    lemma_ascending_len(p, octaves, offset);
    lemma_ascending_increasing(p, octaves, offset);
    let up = ascending_keys(p, octaves, offset);
    let s = expected_keys(mode, octaves, offset);
    let n = up.len();
    assert(octaves * p.len() == 7 * octaves) by (nonlinear_arith)
        requires
            p.len() == 7,
    ;
    assert forall|a: int, b: int| 0 <= a <= b <= 7 * octaves implies s[a] <= s[b] by {
        if b == n {
            if a < n {
                assert(s[a] == up[a]);
            }
        } else {
            assert(s[a] == up[a]);
            assert(s[b] == up[b]);
        }
    }
    assert forall|a: int, b: int| 7 * octaves <= a <= b < s.len() implies s[a] >= s[b] by {
        if b > n {
            assert(s[b] == up.reverse()[b - n - 1]);
            assert(s[b] == up[2 * n - b]);
            if a == n {
                assert(s[a] == top_key(octaves, offset));
            } else {
                assert(s[a] == up.reverse()[a - n - 1]);
                assert(s[a] == up[2 * n - a]);
                if a < b {
                    assert(up[2 * n - b] < up[2 * n - a]);
                }
            }
        }
    }
    assert(s[0] == up[0]);
    assert(s[s.len() - 1] == up.reverse()[n - 1]);
}

/// Key that picks the first choice of a selection phase (A0).
pub const CHOICE_A: u8 = 21;

/// Key that picks the second choice of a selection phase (B0).
pub const CHOICE_B: u8 = 23;

/// Key that picks the third choice of a selection phase (C1).
pub const CHOICE_C: u8 = 24;

/// Key that picks the fourth choice of a selection phase (D1).
pub const CHOICE_D: u8 = 26;

/// Highest key number of the MIDI range.
pub const MIDI_KEY_MAX: u8 = 127;

/// A key outside the choices of a selection phase was pressed.
#[derive(Clone, Copy, Debug, PartialEq, Eq, Structural)]
pub struct SelectionAborted;

/// The mode that `key` picks during mode selection.
pub open spec fn mode_for_key(key: u8) -> Option<ScaleMode> {
    if key == CHOICE_A {
        Some(ScaleMode::Major)
    } else if key == CHOICE_B {
        Some(ScaleMode::NaturalMinor)
    } else if key == CHOICE_C {
        Some(ScaleMode::HarmonicMinor)
    } else if key == CHOICE_D {
        Some(ScaleMode::MelodicMinor)
    } else {
        None
    }
}

/// The octave count that `key` picks during octave selection.
pub open spec fn octaves_for_key(key: u8) -> Option<u8> {
    if key == CHOICE_A {
        Some(1u8)
    } else if key == CHOICE_B {
        Some(2u8)
    } else if key == CHOICE_C {
        Some(3u8)
    } else if key == CHOICE_D {
        Some(4u8)
    } else {
        None
    }
}

/// The offset that `key` picks during start-key selection of a scale over
/// `octaves` octaves: its distance from the reference key, for keys from the
/// reference key up to the highest one whose scale stays in the MIDI range.
pub open spec fn offset_for_key(key: u8, octaves: u8) -> Option<u8> {
    if REFERENCE_KEY <= key && key + OCTAVE * octaves <= MIDI_KEY_MAX {
        Some((key - REFERENCE_KEY) as u8)
    } else {
        None
    }
}

/// The finished configuration of a practice session.
#[derive(Clone, Copy, Debug, PartialEq, Eq, Structural)]
pub struct ScaleCreatorArgs {
    pub scale: ScaleMode,
    pub octaves: u8,
    pub offset: u8,
}

impl ScaleCreatorArgs {
    /// Between one and four octaves, and every generated key fits in a byte.
    pub open spec fn valid(self) -> bool {
        &&& 1 <= self.octaves <= 4
        &&& top_key(self.octaves as nat, self.offset) <= u8::MAX
    }

    /// The sequence that this configuration asks the player for.
    pub open spec fn expected(self) -> Seq<int> {
        expected_keys(self.scale, self.octaves as nat, self.offset)
    }
}

/// The configuration that three selection keys pick, if each is a valid
/// choice of its phase.
pub open spec fn args_for_keys(mode_key: u8, octave_key: u8, start_key: u8) -> Option<
    ScaleCreatorArgs,
> {
    match (mode_for_key(mode_key), octaves_for_key(octave_key)) {
        (Some(scale), Some(octaves)) => match offset_for_key(start_key, octaves) {
            Some(offset) => Some(ScaleCreatorArgs { scale, octaves, offset }),
            None => None,
        },
        _ => None,
    }
}

/// Builds expected sequences and reads the selection keys.
pub struct ScaleCreator;

impl ScaleCreator {
    /// The ascending run of `scale` over `octaves` octaves, starting `offset`
    /// semitones above the reference key.
    pub fn build_scales_up(scale: &[u8], octaves: u8, offset: u8) -> (r: Vec<u8>)
        requires
            run_fits(scale@, octaves, offset),
        ensures
            as_ints(r@) == ascending_keys(scale@, octaves as nat, offset),
    {
        let mut notes: Vec<u8> = Vec::new();
        let mut i: u8 = 0;
        while i < octaves
            invariant
                i <= octaves,
                run_fits(scale@, octaves, offset),
                as_ints(notes@) == ascending_keys(scale@, i as nat, offset),
            decreases octaves - i,
        {
            let ghost before = notes@;
            let mut j: usize = 0;
            while j < scale.len()
                invariant
                    i < octaves,
                    j <= scale@.len(),
                    run_fits(scale@, octaves, offset),
                    as_ints(before) == ascending_keys(scale@, i as nat, offset),
                    as_ints(notes@) == as_ints(before) + octave_keys(scale@, i as int, offset).take(
                        j as int,
                    ),
                decreases scale@.len() - j,
            {
                assert(REFERENCE_KEY + offset + OCTAVE * (octaves - 1) + scale@[j as int] <= u8::MAX);
                assert(OCTAVE * i <= OCTAVE * (octaves - 1)) by (nonlinear_arith)
                    requires
                        i < octaves,
                ;
                let key = scale[j] + OCTAVE * i + offset + REFERENCE_KEY;
                assert(key as int == octave_keys(scale@, i as int, offset)[j as int]);
                let ghost prev = notes@;
                notes.push(key);
                assert(notes@ == prev.push(key));
                assert(as_ints(notes@) =~= as_ints(prev).push(key as int));
                assert(as_ints(notes@) =~= as_ints(before) + octave_keys(
                    scale@,
                    i as int,
                    offset,
                ).take(j + 1));
                j += 1;
            }
            assert(octave_keys(scale@, i as int, offset).take(scale@.len() as int) =~= octave_keys(
                scale@,
                i as int,
                offset,
            ));
            i += 1;
        }
        notes
    }

    /// The descending run: the ascending run of the same arguments, highest
    /// key first.
    pub fn build_scales_down(scale: &[u8], octaves: u8, offset: u8) -> (r: Vec<u8>)
        requires
            run_fits(scale@, octaves, offset),
        ensures
            as_ints(r@) == ascending_keys(scale@, octaves as nat, offset).reverse(),
    {
        let up = Self::build_scales_up(scale, octaves, offset);
        let mut notes: Vec<u8> = Vec::new();
        let mut k: usize = up.len();
        while k > 0
            invariant
                k <= up@.len(),
                notes@.len() == up@.len() - k,
                forall|t: int| 0 <= t < notes@.len() ==> notes@[t] == up@[up@.len() - 1 - t],
            decreases k,
        {
            k -= 1;
            notes.push(up[k]);
        }
        assert(as_ints(notes@) =~= as_ints(up@).reverse());
        notes
    }

    /// The full expected sequence of a configuration: the ascending run, the
    /// top note, then the descending run.
    pub fn build_notes(args: &ScaleCreatorArgs) -> (r: Vec<u8>)
        requires
            args.valid(),
        ensures
            as_ints(r@) == args.expected(),
            r@.len() == 14 * args.octaves + 1,
            forall|k: int|
                0 <= k < r@.len() ==> REFERENCE_KEY + args.offset <= #[trigger] r@[k] <= top_key(
                    args.octaves as nat,
                    args.offset,
                ),
    {
        let pattern = args.scale.pattern();
        proof {
            lemma_mode_pattern(args.scale);
            assert forall|j: int| 0 <= j < pattern@.len() implies REFERENCE_KEY + args.offset
                + OCTAVE * (args.octaves - 1) + #[trigger] pattern@[j] <= u8::MAX by {
                assert(pattern@[j] < OCTAVE);
            }
            lemma_scale_arch(args.scale, args.octaves as nat, args.offset);
        }
        let mut notes = Self::build_scales_up(pattern.as_slice(), args.octaves, args.offset);
        let top = OCTAVE * args.octaves + args.offset + REFERENCE_KEY;
        notes.push(top);
        let mut down = Self::build_scales_down(pattern.as_slice(), args.octaves, args.offset);
        notes.append(&mut down);
        assert(as_ints(notes@) =~= args.expected());
        proof {
            let p = args.scale.intervals();
            let up = ascending_keys(p, args.octaves as nat, args.offset);
            lemma_ascending_increasing(p, args.octaves as nat, args.offset);
            assert forall|k: int| 0 <= k < notes@.len() implies REFERENCE_KEY + args.offset
                <= #[trigger] notes@[k] <= top_key(args.octaves as nat, args.offset) by {
                assert(as_ints(notes@)[k] == notes@[k] as int);
                let n = up.len() as int;
                if k > n {
                    assert(args.expected()[k] == up.reverse()[k - n - 1]);
                    assert(up.reverse()[k - n - 1] == up[n - 1 - (k - n - 1)]);
                } else if k < n {
                    assert(args.expected()[k] == up[k]);
                }
            }
        }
        notes
    }

    /// The mode that a key-down picks during mode selection.
    pub fn scale_selection(key: u8) -> (r: Result<ScaleMode, SelectionAborted>)
        ensures
            r == match mode_for_key(key) {
                Some(m) => Ok::<ScaleMode, SelectionAborted>(m),
                None => Err(SelectionAborted),
            },
    {
        if key == CHOICE_A {
            Ok(ScaleMode::Major)
        } else if key == CHOICE_B {
            Ok(ScaleMode::NaturalMinor)
        } else if key == CHOICE_C {
            Ok(ScaleMode::HarmonicMinor)
        } else if key == CHOICE_D {
            Ok(ScaleMode::MelodicMinor)
        } else {
            Err(SelectionAborted)
        }
    }

    /// The octave count that a key-down picks during octave selection.
    pub fn octaves_selection(key: u8) -> (r: Result<u8, SelectionAborted>)
        ensures
            r == match octaves_for_key(key) {
                Some(o) => Ok::<u8, SelectionAborted>(o),
                None => Err(SelectionAborted),
            },
    {
        if key == CHOICE_A {
            Ok(1)
        } else if key == CHOICE_B {
            Ok(2)
        } else if key == CHOICE_C {
            Ok(3)
        } else if key == CHOICE_D {
            Ok(4)
        } else {
            Err(SelectionAborted)
        }
    }

    /// The offset that a key-down picks during start-key selection of a
    /// scale over `octaves` octaves.
    pub fn startkey_selection(key: u8, octaves: u8) -> (r: Result<u8, SelectionAborted>)
        ensures
            r == match offset_for_key(key, octaves) {
                Some(o) => Ok::<u8, SelectionAborted>(o),
                None => Err(SelectionAborted),
            },
    {
        if REFERENCE_KEY <= key && octaves <= 9 && key <= MIDI_KEY_MAX - OCTAVE * octaves {
            Ok(key - REFERENCE_KEY)
        } else {
            Err(SelectionAborted)
        }
    }

    /// The expected sequence that three selection keys pick, or
    /// `SelectionAborted` where one of them is not a choice of its phase.
    pub fn create_scale(mode_key: u8, octave_key: u8, start_key: u8) -> (r: Result<
        Vec<u8>,
        SelectionAborted,
    >)
        ensures
            match args_for_keys(mode_key, octave_key, start_key) {
                Some(args) => r matches Ok(v) && as_ints(v@) == args.expected() && forall|k: int|
                    0 <= k < v@.len() ==> #[trigger] v@[k] <= MIDI_KEY_MAX,
                None => r == Err::<Vec<u8>, SelectionAborted>(SelectionAborted),
            },
    {
        let scale = match Self::scale_selection(mode_key) {
            Ok(m) => m,
            Err(e) => return Err(e),
        };
        let octaves = match Self::octaves_selection(octave_key) {
            Ok(o) => o,
            Err(e) => return Err(e),
        };
        let offset = match Self::startkey_selection(start_key, octaves) {
            Ok(o) => o,
            Err(e) => return Err(e),
        };
        let args = ScaleCreatorArgs { scale, octaves, offset };
        Ok(Self::build_notes(&args))
    }
}

} // verus!
