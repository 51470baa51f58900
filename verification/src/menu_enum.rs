//! Enums that can be shown in a `Menu`, and the trait that lays them out.
use vstd::prelude::*;

verus! {

/// A trait for preparing an enum for use with the menu UI component.
///
/// A menu lays its items out by index: `from_idx` describes the order of the
/// items, `idx` gives the index of a variant, and `num_variants` says how many
/// items the menu shows. Every implementation must keep `idx` and `from_idx`
/// inverse to each other, which the two proof functions of the trait state.
pub trait MenuEnum: Sized + Copy {
    /// The number of items in the menu.
    spec fn spec_num_variants() -> nat;

    /// The menu index of a variant.
    spec fn spec_idx(self) -> nat;

    /// The variant at a menu index, if there is one.
    spec fn spec_from_idx(idx: nat) -> Option<Self>;

    /// The number of variants in the enum, used to lay out the menu.
    fn num_variants() -> (n: usize)
        ensures
            n == Self::spec_num_variants(),
    ;

    /// The index for a given variant.
    fn idx(&self) -> (i: usize)
        ensures
            i == self.spec_idx(),
    ;

    /// The variant at a given index, or `None` past the last item.
    fn from_idx(idx: usize) -> (v: Option<Self>)
        ensures
            v == Self::spec_from_idx(idx as nat),
    ;

    /// Every variant has an index inside the menu, and that index leads back
    /// to the variant.
    proof fn lemma_idx_round_trip(self)
        ensures
            self.spec_idx() < Self::spec_num_variants(),
            Self::spec_from_idx(self.spec_idx()) == Some(self),
    ;

    /// Exactly the indices below the number of variants name a variant, and
    /// the variant an index names has that index.
    proof fn lemma_from_idx_inverse(idx: nat)
        ensures
            Self::spec_from_idx(idx) is Some <==> idx < Self::spec_num_variants(),
            Self::spec_from_idx(idx) matches Some(v) ==> v.spec_idx() == idx,
    ;
}

/// The generative algorithm that drives the spectral mask.
#[derive(Clone, Copy, Debug, PartialEq, Eq, Structural)]
pub enum GenerativeAlgo {
    Contours,
    SmoothLife,
}

impl Default for GenerativeAlgo {
    /// The first item of the menu.
    fn default() -> (v: Self)
        ensures
            v == GenerativeAlgo::Contours,
    {
        GenerativeAlgo::Contours
    }
}

impl MenuEnum for GenerativeAlgo {
    open spec fn spec_num_variants() -> nat {
        2
    }

    open spec fn spec_idx(self) -> nat {
        match self {
            GenerativeAlgo::Contours => 0,
            GenerativeAlgo::SmoothLife => 1,
        }
    }

    open spec fn spec_from_idx(idx: nat) -> Option<Self> {
        if idx == 0 {
            Some(GenerativeAlgo::Contours)
        } else if idx == 1 {
            Some(GenerativeAlgo::SmoothLife)
        } else {
            None
        }
    }

    fn num_variants() -> (n: usize) {
        2
    }

    fn idx(&self) -> (i: usize) {
        match self {
            Self::Contours => 0,
            Self::SmoothLife => 1,
        }
    }

    fn from_idx(idx: usize) -> (v: Option<Self>) {
        match idx {
            0 => Some(Self::Contours),
            1 => Some(Self::SmoothLife),
            _ => None,
        }
    }

    proof fn lemma_idx_round_trip(self) {
    }

    proof fn lemma_from_idx_inverse(idx: nat) {
    }
}

/// A parameter preset for the SmoothLife generator.
#[derive(Clone, Copy, Debug, PartialEq, Eq, Structural)]
pub enum SmoothLifePreset {
    Fluid,
    Swirl,
}

impl Default for SmoothLifePreset {
    /// The first item of the menu.
    fn default() -> (v: Self)
        ensures
            v == SmoothLifePreset::Fluid,
    {
        SmoothLifePreset::Fluid
    }
}

impl MenuEnum for SmoothLifePreset {
    open spec fn spec_num_variants() -> nat {
        2
    }

    open spec fn spec_idx(self) -> nat {
        match self {
            SmoothLifePreset::Fluid => 0,
            SmoothLifePreset::Swirl => 1,
        }
    }

    open spec fn spec_from_idx(idx: nat) -> Option<Self> {
        if idx == 0 {
            Some(SmoothLifePreset::Fluid)
        } else if idx == 1 {
            Some(SmoothLifePreset::Swirl)
        } else {
            None
        }
    }

    fn num_variants() -> (n: usize) {
        2
    }

    fn idx(&self) -> (i: usize) {
        match self {
            Self::Fluid => 0,
            Self::Swirl => 1,
        }
    }

    fn from_idx(idx: usize) -> (v: Option<Self>) {
        match idx {
            0 => Some(Self::Fluid),
            1 => Some(Self::Swirl),
            _ => None,
        }
    }

    proof fn lemma_idx_round_trip(self) {
    }

    proof fn lemma_from_idx_inverse(idx: nat) {
    }
}

/// Which spectrograms are shown.
#[derive(Clone, Copy, Debug, PartialEq, Eq, Structural)]
pub enum SpectrogramView {
    PrePost,
    PreOnly,
    PostOnly,
}

impl Default for SpectrogramView {
    /// The first item of the menu.
    fn default() -> (v: Self)
        ensures
            v == SpectrogramView::PrePost,
    {
        SpectrogramView::PrePost
    }
}

impl MenuEnum for SpectrogramView {
    open spec fn spec_num_variants() -> nat {
        3
    }

    open spec fn spec_idx(self) -> nat {
        match self {
            SpectrogramView::PrePost => 0,
            SpectrogramView::PreOnly => 1,
            SpectrogramView::PostOnly => 2,
        }
    }

    open spec fn spec_from_idx(idx: nat) -> Option<Self> {
        if idx == 0 {
            Some(SpectrogramView::PrePost)
        } else if idx == 1 {
            Some(SpectrogramView::PreOnly)
        } else if idx == 2 {
            Some(SpectrogramView::PostOnly)
        } else {
            None
        }
    }

    fn num_variants() -> (n: usize) {
        3
    }

    fn idx(&self) -> (i: usize) {
        match self {
            Self::PrePost => 0,
            Self::PreOnly => 1,
            Self::PostOnly => 2,
        }
    }

    fn from_idx(idx: usize) -> (v: Option<Self>) {
        match idx {
            0 => Some(Self::PrePost),
            1 => Some(Self::PreOnly),
            2 => Some(Self::PostOnly),
            _ => None,
        }
    }

    proof fn lemma_idx_round_trip(self) {
    }

    proof fn lemma_from_idx_inverse(idx: nat) {
    }
}

/// The waveshaping algorithm of the distortion effect.
#[derive(Clone, Copy, Debug, PartialEq, Eq, Structural)]
pub enum DistortionType {
    Off,
    Soft,
    Hard,
    Wrap,
    Downsample,
}

impl Default for DistortionType {
    /// The first item of the menu.
    fn default() -> (v: Self)
        ensures
            v == DistortionType::Off,
    {
        DistortionType::Off
    }
}

impl MenuEnum for DistortionType {
    open spec fn spec_num_variants() -> nat {
        5
    }

    open spec fn spec_idx(self) -> nat {
        match self {
            DistortionType::Off => 0,
            DistortionType::Soft => 1,
            DistortionType::Hard => 2,
            DistortionType::Wrap => 3,
            DistortionType::Downsample => 4,
        }
    }

    open spec fn spec_from_idx(idx: nat) -> Option<Self> {
        if idx == 0 {
            Some(DistortionType::Off)
        } else if idx == 1 {
            Some(DistortionType::Soft)
        } else if idx == 2 {
            Some(DistortionType::Hard)
        } else if idx == 3 {
            Some(DistortionType::Wrap)
        } else if idx == 4 {
            Some(DistortionType::Downsample)
        } else {
            None
        }
    }

    fn num_variants() -> (n: usize) {
        5
    }

    fn idx(&self) -> (i: usize) {
        match self {
            Self::Off => 0,
            Self::Soft => 1,
            Self::Hard => 2,
            Self::Wrap => 3,
            Self::Downsample => 4,
        }
    }

    fn from_idx(idx: usize) -> (v: Option<Self>) {
        match idx {
            0 => Some(Self::Off),
            1 => Some(Self::Soft),
            2 => Some(Self::Hard),
            3 => Some(Self::Wrap),
            4 => Some(Self::Downsample),
            _ => None,
        }
    }

    proof fn lemma_idx_round_trip(self) {
    }

    proof fn lemma_from_idx_inverse(idx: nat) {
    }
}

/// The musical scale used to quantise the resonator bank.
#[derive(Clone, Copy, Debug, PartialEq, Eq, Structural)]
pub enum Scale {
    Major,
    Minor,
    MajPentatonic,
    MinPentatonic,
    Chromatic,
}

impl Default for Scale {
    /// The first item of the menu.
    fn default() -> (v: Self)
        ensures
            v == Scale::Major,
    {
        Scale::Major
    }
}

impl MenuEnum for Scale {
    open spec fn spec_num_variants() -> nat {
        5
    }

    open spec fn spec_idx(self) -> nat {
        match self {
            Scale::Major => 0,
            Scale::Minor => 1,
            Scale::MajPentatonic => 2,
            Scale::MinPentatonic => 3,
            Scale::Chromatic => 4,
        }
    }

    open spec fn spec_from_idx(idx: nat) -> Option<Self> {
        if idx == 0 {
            Some(Scale::Major)
        } else if idx == 1 {
            Some(Scale::Minor)
        } else if idx == 2 {
            Some(Scale::MajPentatonic)
        } else if idx == 3 {
            Some(Scale::MinPentatonic)
        } else if idx == 4 {
            Some(Scale::Chromatic)
        } else {
            None
        }
    }

    fn num_variants() -> (n: usize) {
        5
    }

    fn idx(&self) -> (i: usize) {
        match self {
            Self::Major => 0,
            Self::Minor => 1,
            Self::MajPentatonic => 2,
            Self::MinPentatonic => 3,
            Self::Chromatic => 4,
        }
    }

    fn from_idx(idx: usize) -> (v: Option<Self>) {
        match idx {
            0 => Some(Self::Major),
            1 => Some(Self::Minor),
            2 => Some(Self::MajPentatonic),
            3 => Some(Self::MinPentatonic),
            4 => Some(Self::Chromatic),
            _ => None,
        }
    }

    proof fn lemma_idx_round_trip(self) {
    }

    proof fn lemma_from_idx_inverse(idx: nat) {
    }
}

/// The grid resolution of the SmoothLife generator.
#[derive(Clone, Copy, Debug, PartialEq, Eq, Structural)]
pub enum SmoothLifeSize {
    S16,
    S32,
    S64,
    S128,
    S256,
    S512,
}

impl Default for SmoothLifeSize {
    /// The first item of the menu.
    fn default() -> (v: Self)
        ensures
            v == SmoothLifeSize::S16,
    {
        SmoothLifeSize::S16
    }
}

impl MenuEnum for SmoothLifeSize {
    open spec fn spec_num_variants() -> nat {
        6
    }

    open spec fn spec_idx(self) -> nat {
        match self {
            SmoothLifeSize::S16 => 0,
            SmoothLifeSize::S32 => 1,
            SmoothLifeSize::S64 => 2,
            SmoothLifeSize::S128 => 3,
            SmoothLifeSize::S256 => 4,
            SmoothLifeSize::S512 => 5,
        }
    }

    open spec fn spec_from_idx(idx: nat) -> Option<Self> {
        if idx == 0 {
            Some(SmoothLifeSize::S16)
        } else if idx == 1 {
            Some(SmoothLifeSize::S32)
        } else if idx == 2 {
            Some(SmoothLifeSize::S64)
        } else if idx == 3 {
            Some(SmoothLifeSize::S128)
        } else if idx == 4 {
            Some(SmoothLifeSize::S256)
        } else if idx == 5 {
            Some(SmoothLifeSize::S512)
        } else {
            None
        }
    }

    fn num_variants() -> (n: usize) {
        6
    }

    fn idx(&self) -> (i: usize) {
        match self {
            Self::S16 => 0,
            Self::S32 => 1,
            Self::S64 => 2,
            Self::S128 => 3,
            Self::S256 => 4,
            Self::S512 => 5,
        }
    }

    fn from_idx(idx: usize) -> (v: Option<Self>) {
        match idx {
            0 => Some(Self::S16),
            1 => Some(Self::S32),
            2 => Some(Self::S64),
            3 => Some(Self::S128),
            4 => Some(Self::S256),
            5 => Some(Self::S512),
            _ => None,
        }
    }

    proof fn lemma_idx_round_trip(self) {
    }

    proof fn lemma_from_idx_inverse(idx: nat) {
    }
}

/// The FFT size of the spectrograms.
#[derive(Clone, Copy, Debug, PartialEq, Eq, Structural)]
pub enum SpectrogramSize {
    S1024,
    S2048,
    S4096,
    S8192,
}

impl Default for SpectrogramSize {
    /// The first item of the menu.
    fn default() -> (v: Self)
        ensures
            v == SpectrogramSize::S1024,
    {
        SpectrogramSize::S1024
    }
}

impl MenuEnum for SpectrogramSize {
    open spec fn spec_num_variants() -> nat {
        4
    }

    open spec fn spec_idx(self) -> nat {
        match self {
            SpectrogramSize::S1024 => 0,
            SpectrogramSize::S2048 => 1,
            SpectrogramSize::S4096 => 2,
            SpectrogramSize::S8192 => 3,
        }
    }

    open spec fn spec_from_idx(idx: nat) -> Option<Self> {
        if idx == 0 {
            Some(SpectrogramSize::S1024)
        } else if idx == 1 {
            Some(SpectrogramSize::S2048)
        } else if idx == 2 {
            Some(SpectrogramSize::S4096)
        } else if idx == 3 {
            Some(SpectrogramSize::S8192)
        } else {
            None
        }
    }

    fn num_variants() -> (n: usize) {
        4
    }

    fn idx(&self) -> (i: usize) {
        match self {
            Self::S1024 => 0,
            Self::S2048 => 1,
            Self::S4096 => 2,
            Self::S8192 => 3,
        }
    }

    fn from_idx(idx: usize) -> (v: Option<Self>) {
        match idx {
            0 => Some(Self::S1024),
            1 => Some(Self::S2048),
            2 => Some(Self::S4096),
            3 => Some(Self::S8192),
            _ => None,
        }
    }

    proof fn lemma_idx_round_trip(self) {
    }

    proof fn lemma_from_idx_inverse(idx: nat) {
    }
}

/// The FFT size of the spectral filter.
#[derive(Clone, Copy, Debug, PartialEq, Eq, Structural)]
pub enum SpectralFilterSize {
    S64,
    S128,
    S256,
    S512,
    S1024,
    S2048,
    S4096,
    S8192,
    S16384,
}

impl Default for SpectralFilterSize {
    /// The first item of the menu.
    fn default() -> (v: Self)
        ensures
            v == SpectralFilterSize::S64,
    {
        SpectralFilterSize::S64
    }
}

impl MenuEnum for SpectralFilterSize {
    open spec fn spec_num_variants() -> nat {
        9
    }

    open spec fn spec_idx(self) -> nat {
        match self {
            SpectralFilterSize::S64 => 0,
            SpectralFilterSize::S128 => 1,
            SpectralFilterSize::S256 => 2,
            SpectralFilterSize::S512 => 3,
            SpectralFilterSize::S1024 => 4,
            SpectralFilterSize::S2048 => 5,
            SpectralFilterSize::S4096 => 6,
            SpectralFilterSize::S8192 => 7,
            SpectralFilterSize::S16384 => 8,
        }
    }

    open spec fn spec_from_idx(idx: nat) -> Option<Self> {
        if idx == 0 {
            Some(SpectralFilterSize::S64)
        } else if idx == 1 {
            Some(SpectralFilterSize::S128)
        } else if idx == 2 {
            Some(SpectralFilterSize::S256)
        } else if idx == 3 {
            Some(SpectralFilterSize::S512)
        } else if idx == 4 {
            Some(SpectralFilterSize::S1024)
        } else if idx == 5 {
            Some(SpectralFilterSize::S2048)
        } else if idx == 6 {
            Some(SpectralFilterSize::S4096)
        } else if idx == 7 {
            Some(SpectralFilterSize::S8192)
        } else if idx == 8 {
            Some(SpectralFilterSize::S16384)
        } else {
            None
        }
    }

    fn num_variants() -> (n: usize) {
        9
    }

    fn idx(&self) -> (i: usize) {
        match self {
            Self::S64 => 0,
            Self::S128 => 1,
            Self::S256 => 2,
            Self::S512 => 3,
            Self::S1024 => 4,
            Self::S2048 => 5,
            Self::S4096 => 6,
            Self::S8192 => 7,
            Self::S16384 => 8,
        }
    }

    fn from_idx(idx: usize) -> (v: Option<Self>) {
        match idx {
            0 => Some(Self::S64),
            1 => Some(Self::S128),
            2 => Some(Self::S256),
            3 => Some(Self::S512),
            4 => Some(Self::S1024),
            5 => Some(Self::S2048),
            6 => Some(Self::S4096),
            7 => Some(Self::S8192),
            8 => Some(Self::S16384),
            _ => None,
        }
    }

    proof fn lemma_idx_round_trip(self) {
    }

    proof fn lemma_from_idx_inverse(idx: nat) {
    }
}

/// `items` are the items of the menu of `E`, in the order the menu lists
/// them: one per index, and nothing past the last.
pub open spec fn lists_in_order<E: MenuEnum>(items: Seq<E>) -> bool {
    &&& items.len() == E::spec_num_variants()
    &&& forall|i: int|
        0 <= i < items.len() ==> E::spec_from_idx(i as nat) == Some(#[trigger] items[i])
    &&& forall|i: int| 0 <= i < items.len() ==> (#[trigger] items[i]).spec_idx() == i
}

/// The menu of `GenerativeAlgo` lists its items in the order the enum declares
/// them.
pub proof fn lemma_generative_algo_menu_order()
    ensures
        lists_in_order(
            seq![
                GenerativeAlgo::Contours,
                GenerativeAlgo::SmoothLife,
            ],
        ),
{
    let items = seq![
        GenerativeAlgo::Contours,
        GenerativeAlgo::SmoothLife,
    ];
    assert(items[0] == GenerativeAlgo::Contours);
    assert(items[1] == GenerativeAlgo::SmoothLife);
}

/// The menu of `SmoothLifePreset` lists its items in the order the enum declares
/// them.
pub proof fn lemma_smooth_life_preset_menu_order()
    ensures
        lists_in_order(
            seq![
                SmoothLifePreset::Fluid,
                SmoothLifePreset::Swirl,
            ],
        ),
{
    let items = seq![
        SmoothLifePreset::Fluid,
        SmoothLifePreset::Swirl,
    ];
    assert(items[0] == SmoothLifePreset::Fluid);
    assert(items[1] == SmoothLifePreset::Swirl);
}

/// The menu of `SpectrogramView` lists its items in the order the enum declares
/// them.
pub proof fn lemma_spectrogram_view_menu_order()
    ensures
        lists_in_order(
            seq![
                SpectrogramView::PrePost,
                SpectrogramView::PreOnly,
                SpectrogramView::PostOnly,
            ],
        ),
{
    let items = seq![
        SpectrogramView::PrePost,
        SpectrogramView::PreOnly,
        SpectrogramView::PostOnly,
    ];
    assert(items[0] == SpectrogramView::PrePost);
    assert(items[1] == SpectrogramView::PreOnly);
    assert(items[2] == SpectrogramView::PostOnly);
}

/// The menu of `DistortionType` lists its items in the order the enum declares
/// them.
pub proof fn lemma_distortion_type_menu_order()
    ensures
        lists_in_order(
            seq![
                DistortionType::Off,
                DistortionType::Soft,
                DistortionType::Hard,
                DistortionType::Wrap,
                DistortionType::Downsample,
            ],
        ),
{
    let items = seq![
        DistortionType::Off,
        DistortionType::Soft,
        DistortionType::Hard,
        DistortionType::Wrap,
        DistortionType::Downsample,
    ];
    assert(items[0] == DistortionType::Off);
    assert(items[1] == DistortionType::Soft);
    assert(items[2] == DistortionType::Hard);
    assert(items[3] == DistortionType::Wrap);
    assert(items[4] == DistortionType::Downsample);
}

/// The menu of `Scale` lists its items in the order the enum declares
/// them.
pub proof fn lemma_scale_menu_order()
    ensures
        lists_in_order(
            seq![
                Scale::Major,
                Scale::Minor,
                Scale::MajPentatonic,
                Scale::MinPentatonic,
                Scale::Chromatic,
            ],
        ),
{
    let items = seq![
        Scale::Major,
        Scale::Minor,
        Scale::MajPentatonic,
        Scale::MinPentatonic,
        Scale::Chromatic,
    ];
    assert(items[0] == Scale::Major);
    assert(items[1] == Scale::Minor);
    assert(items[2] == Scale::MajPentatonic);
    assert(items[3] == Scale::MinPentatonic);
    assert(items[4] == Scale::Chromatic);
}

/// The menu of `SmoothLifeSize` lists its items in the order the enum declares
/// them.
pub proof fn lemma_smooth_life_size_menu_order()
    ensures
        lists_in_order(
            seq![
                SmoothLifeSize::S16,
                SmoothLifeSize::S32,
                SmoothLifeSize::S64,
                SmoothLifeSize::S128,
                SmoothLifeSize::S256,
                SmoothLifeSize::S512,
            ],
        ),
{
    let items = seq![
        SmoothLifeSize::S16,
        SmoothLifeSize::S32,
        SmoothLifeSize::S64,
        SmoothLifeSize::S128,
        SmoothLifeSize::S256,
        SmoothLifeSize::S512,
    ];
    assert(items[0] == SmoothLifeSize::S16);
    assert(items[1] == SmoothLifeSize::S32);
    assert(items[2] == SmoothLifeSize::S64);
    assert(items[3] == SmoothLifeSize::S128);
    assert(items[4] == SmoothLifeSize::S256);
    assert(items[5] == SmoothLifeSize::S512);
}

/// The menu of `SpectrogramSize` lists its items in the order the enum declares
/// them.
pub proof fn lemma_spectrogram_size_menu_order()
    ensures
        lists_in_order(
            seq![
                SpectrogramSize::S1024,
                SpectrogramSize::S2048,
                SpectrogramSize::S4096,
                SpectrogramSize::S8192,
            ],
        ),
{
    let items = seq![
        SpectrogramSize::S1024,
        SpectrogramSize::S2048,
        SpectrogramSize::S4096,
        SpectrogramSize::S8192,
    ];
    assert(items[0] == SpectrogramSize::S1024);
    assert(items[1] == SpectrogramSize::S2048);
    assert(items[2] == SpectrogramSize::S4096);
    assert(items[3] == SpectrogramSize::S8192);
}

/// The menu of `SpectralFilterSize` lists its items in the order the enum declares
/// them.
pub proof fn lemma_spectral_filter_size_menu_order()
    ensures
        lists_in_order(
            seq![
                SpectralFilterSize::S64,
                SpectralFilterSize::S128,
                SpectralFilterSize::S256,
                SpectralFilterSize::S512,
                SpectralFilterSize::S1024,
                SpectralFilterSize::S2048,
                SpectralFilterSize::S4096,
                SpectralFilterSize::S8192,
                SpectralFilterSize::S16384,
            ],
        ),
{
    let items = seq![
        SpectralFilterSize::S64,
        SpectralFilterSize::S128,
        SpectralFilterSize::S256,
        SpectralFilterSize::S512,
        SpectralFilterSize::S1024,
        SpectralFilterSize::S2048,
        SpectralFilterSize::S4096,
        SpectralFilterSize::S8192,
        SpectralFilterSize::S16384,
    ];
    assert(items[0] == SpectralFilterSize::S64);
    assert(items[1] == SpectralFilterSize::S128);
    assert(items[2] == SpectralFilterSize::S256);
    assert(items[3] == SpectralFilterSize::S512);
    assert(items[4] == SpectralFilterSize::S1024);
    assert(items[5] == SpectralFilterSize::S2048);
    assert(items[6] == SpectralFilterSize::S4096);
    assert(items[7] == SpectralFilterSize::S8192);
    assert(items[8] == SpectralFilterSize::S16384);
}

} // verus!
