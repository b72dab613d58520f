//! The scrollback: what was entered and what came out of it.

use crate::highlighting::{SpanView, UiuappHistorySpan};
use vstd::prelude::*;
use vstd::string::{StrSliceExecFns, StringExecFns};

verus! {

/// Text output longer than this many bytes is cut down to this many
/// characters.
pub const MAX_OUTPUT_CHARS: usize = 1000;

/// An image or a frame narrower or lower than this is shown as numbers.
pub const MIN_AUTO_IMAGE_DIM: usize = 30;

/// The fewest frames that are shown as an animation.
pub const MIN_AUTO_GIF_FRAMES: usize = 5;

/// Samples per second of audio output.
pub const AUDIO_SAMPLE_RATE: u32 = 44100;

/// One value that a run left behind, in the form it is shown in.
#[derive(Debug, PartialEq, Eq)]
pub enum ScrollbackOutput {
    Text(String),
    Image(Vec<u8>),
    Gif(Vec<u8>),
    Audio(Vec<u8>),
}

/// The mathematical value of a [`ScrollbackOutput`].
pub enum OutputView {
    Text(Seq<char>),
    Image(Seq<u8>),
    Gif(Seq<u8>),
    Audio(Seq<u8>),
}

impl View for ScrollbackOutput {
    type V = OutputView;

    open spec fn view(&self) -> OutputView {
        match self {
            ScrollbackOutput::Text(text) => OutputView::Text(text@),
            ScrollbackOutput::Image(bytes) => OutputView::Image(bytes@),
            ScrollbackOutput::Gif(bytes) => OutputView::Gif(bytes@),
            ScrollbackOutput::Audio(bytes) => OutputView::Audio(bytes@),
        }
    }
}

impl DeepView for ScrollbackOutput {
    type V = OutputView;

    open spec fn deep_view(&self) -> OutputView {
        self@
    }
}

impl Clone for ScrollbackOutput {
    fn clone(&self) -> (r: Self)
        ensures
            r@ == self@,
    {
        match self {
            ScrollbackOutput::Text(text) => ScrollbackOutput::Text(text.clone()),
            ScrollbackOutput::Image(bytes) => {
                let copy = bytes.clone();
                assert(copy@ =~= bytes@);
                ScrollbackOutput::Image(copy)
            },
            ScrollbackOutput::Gif(bytes) => {
                let copy = bytes.clone();
                assert(copy@ =~= bytes@);
                ScrollbackOutput::Gif(copy)
            },
            ScrollbackOutput::Audio(bytes) => {
                let copy = bytes.clone();
                assert(copy@ =~= bytes@);
                ScrollbackOutput::Audio(copy)
            },
        }
    }
}

/// One entry of the scrollback.
#[derive(Debug, PartialEq, Eq)]
pub enum ScrollbackItem {
    /// Code that was run: highlighted, or the reason it could not be.
    Input(Result<Vec<UiuappHistorySpan>, String>),
    Output(Vec<ScrollbackOutput>),
}

/// The mathematical value of a [`ScrollbackItem`].
pub enum ItemView {
    Input(Result<Seq<SpanView>, Seq<char>>),
    Output(Seq<OutputView>),
}

impl View for ScrollbackItem {
    type V = ItemView;

    open spec fn view(&self) -> ItemView {
        match self {
            ScrollbackItem::Input(Ok(spans)) => ItemView::Input(Ok(spans.deep_view())),
            ScrollbackItem::Input(Err(reason)) => ItemView::Input(Err(reason@)),
            ScrollbackItem::Output(outputs) => ItemView::Output(outputs.deep_view()),
        }
    }
}

impl DeepView for ScrollbackItem {
    type V = ItemView;

    open spec fn deep_view(&self) -> ItemView {
        self@
    }
}

/// A copy of `items`, entry by entry.
fn copy_all<T: Clone + DeepView>(items: &Vec<T>) -> (r: Vec<T>)
    requires
        forall|a: T, b: T| call_ensures(T::clone, (&a,), b) ==> a.deep_view() == b.deep_view(),
    ensures
        r.deep_view() == items.deep_view(),
{
    let mut r: Vec<T> = Vec::new();
    let mut i: usize = 0;
    while i < items.len()
        invariant
            i <= items.len(),
            r.len() == i,
            forall|a: T, b: T| call_ensures(T::clone, (&a,), b) ==> a.deep_view() == b.deep_view(),
            forall|k: int| 0 <= k < i ==> r[k].deep_view() == items[k].deep_view(),
        decreases items.len() - i,
    {
        r.push(items[i].clone());
        i += 1;
    }
    assert(r.deep_view() =~= items.deep_view());
    r
}

impl Clone for ScrollbackItem {
    fn clone(&self) -> (r: Self)
        ensures
            r@ == self@,
    {
        match self {
            ScrollbackItem::Input(Ok(spans)) => ScrollbackItem::Input(Ok(copy_all(spans))),
            ScrollbackItem::Input(Err(reason)) => ScrollbackItem::Input(Err(reason.clone())),
            ScrollbackItem::Output(outputs) => ScrollbackItem::Output(copy_all(outputs)),
        }
    }
}

/// The order in which the values of a run are listed.
#[derive(Debug, Clone, Copy, PartialEq, Eq, Structural)]
pub enum StackOrdering {
    BottomAtTop,
    TopAtTop,
}

impl Default for StackOrdering {
    fn default() -> (r: Self)
        ensures
            r == StackOrdering::BottomAtTop,
    {
        StackOrdering::BottomAtTop
    }
}

/// What the user has chosen.
#[derive(Debug)]
pub struct Settings {
    pub clean_input_on_run: bool,
    /// The longest a run may take, in seconds.
    pub execution_limit: u64,
    pub audio_sample_time: u32,
    pub autoplay_video: bool,
    pub autoplay_audio: bool,
    pub gayness: (),
    pub stack_ordering: StackOrdering,
    /// The size of the font, in percent.
    pub font_size: u32,
    pub stack_preserved_across_runs: bool,
}

impl Default for Settings {
    fn default() -> (r: Self)
        ensures
            !r.clean_input_on_run,
            r.execution_limit == 5,
            r.audio_sample_time == 44100,
            !r.autoplay_video,
            !r.autoplay_audio,
            r.stack_ordering == StackOrdering::BottomAtTop,
            r.font_size == 100,
            r.stack_preserved_across_runs,
    {
        Settings {
            clean_input_on_run: false,
            execution_limit: 5,
            audio_sample_time: 44100,
            autoplay_video: false,
            autoplay_audio: false,
            gayness: (),
            stack_ordering: StackOrdering::BottomAtTop,
            font_size: 100,
            stack_preserved_across_runs: true,
        }
    }
}

impl Clone for Settings {
    fn clone(&self) -> (r: Self)
        ensures
            r == *self,
    {
        Settings {
            clean_input_on_run: self.clean_input_on_run,
            execution_limit: self.execution_limit,
            audio_sample_time: self.audio_sample_time,
            autoplay_video: self.autoplay_video,
            autoplay_audio: self.autoplay_audio,
            gayness: (),
            stack_ordering: self.stack_ordering,
            font_size: self.font_size,
            stack_preserved_across_runs: self.stack_preserved_across_runs,
        }
    }
}

/// The cell that was touched last.
#[derive(Debug, Clone, Copy)]
pub struct LastTouchContext {
    pub last_touch: (usize, usize),
    pub timestamp: (),
}

/// The number of bytes that `text` takes in memory.
pub open spec fn byte_len(text: Seq<char>) -> usize {
    vstd::utf8::encode_utf8(text).len() as usize
}

/// Text cut down for the scrollback: text that takes more than
/// [`MAX_OUTPUT_CHARS`] bytes keeps its first [`MAX_OUTPUT_CHARS`] characters
/// and ends in three dots; shorter text stays as it is.
pub open spec fn clipped(text: Seq<char>) -> Seq<char> {
    if byte_len(text) > MAX_OUTPUT_CHARS {
        let kept = if text.len() < MAX_OUTPUT_CHARS {
            text.len() as int
        } else {
            MAX_OUTPUT_CHARS as int
        };
        text.take(kept) + seq!['.', '.', '.']
    } else {
        text
    }
}

impl OutputView {
    /// The output as the scrollback keeps it: text cut down, the rest as it
    /// is.
    pub open spec fn clipped(self) -> OutputView {
        match self {
            OutputView::Text(text) => OutputView::Text(clipped(text)),
            other => other,
        }
    }
}

/// Cuts text down for the scrollback.
pub fn clip_text(text: String) -> (r: String)
    ensures
        r@ == clipped(text@),
{
    if text.as_str().len() > MAX_OUTPUT_CHARS {
        let count = text.as_str().unicode_len();
        let kept = if count < MAX_OUTPUT_CHARS {
            count
        } else {
            MAX_OUTPUT_CHARS
        };
        let head = text.as_str().substring_char(0, kept);
        let mut r = String::from_str(head);
        r.append("...");
        proof {
            reveal_strlit("...");
            assert("..."@ =~= seq!['.', '.', '.']);
            assert(text@.subrange(0, kept as int) =~= text@.take(kept as int));
        }
        r
    } else {
        text
    }
}

impl ScrollbackOutput {
    /// Cuts the output down for the scrollback.
    pub fn clip(self) -> (r: ScrollbackOutput)
        ensures
            r@ == self@.clipped(),
    {
        match self {
            ScrollbackOutput::Text(text) => ScrollbackOutput::Text(clip_text(text)),
            other => other,
        }
    }
}

/// Each output of `outputs` cut down for the scrollback.
pub open spec fn all_clipped(outputs: Seq<OutputView>) -> Seq<OutputView> {
    Seq::new(outputs.len(), |i: int| outputs[i].clipped())
}

/// Cuts each output down for the scrollback.
pub fn clip_outputs(outputs: Vec<ScrollbackOutput>) -> (r: Vec<ScrollbackOutput>)
    ensures
        r.deep_view() == all_clipped(outputs.deep_view()),
{
    let mut rest = outputs;
    let ghost all = rest.deep_view();
    let mut flipped: Vec<ScrollbackOutput> = Vec::new();
    // Taken off the end one by one, then put back in order.
    while rest.len() > 0
        invariant
            rest.len() + flipped.len() == all.len(),
            rest.deep_view() == all.take(rest.len() as int),
            forall|k: int|
                0 <= k < flipped.len() ==> flipped[k]@ == all[all.len() - 1 - k].clipped(),
        decreases rest.len(),
    {
        let ghost before = rest.deep_view();
        let last = rest.pop().unwrap();
        assert(last@ == before[before.len() - 1]);
        assert(rest.deep_view() =~= all.take(rest.len() as int));
        flipped.push(last.clip());
    }
    let mut r: Vec<ScrollbackOutput> = Vec::new();
    while flipped.len() > 0
        invariant
            r.len() + flipped.len() == all.len(),
            forall|k: int|
                0 <= k < flipped.len() ==> flipped[k]@ == all[all.len() - 1 - k].clipped(),
            forall|k: int| 0 <= k < r.len() ==> r[k]@ == all[k].clipped(),
        decreases flipped.len(),
    {
        let next = flipped.pop().unwrap();
        r.push(next);
    }
    assert(r.deep_view() =~= all_clipped(all));
    r
}

/// The outputs of a run in the order they are listed in: as they came for
/// [`StackOrdering::TopAtTop`], turned round for
/// [`StackOrdering::BottomAtTop`].
pub fn listed(outputs: Vec<ScrollbackOutput>, ordering: StackOrdering) -> (r: Vec<
    ScrollbackOutput,
>)
    ensures
        r.deep_view() == match ordering {
            StackOrdering::TopAtTop => outputs.deep_view(),
            StackOrdering::BottomAtTop => outputs.deep_view().reverse(),
        },
{
    match ordering {
        StackOrdering::TopAtTop => outputs,
        StackOrdering::BottomAtTop => {
            let mut rest = outputs;
            let ghost all = rest.deep_view();
            let mut r: Vec<ScrollbackOutput> = Vec::new();
            while rest.len() > 0
                invariant
                    rest.len() + r.len() == all.len(),
                    rest.deep_view() == all.take(rest.len() as int),
                    forall|k: int| 0 <= k < r.len() ==> r[k]@ == all[all.len() - 1 - k],
                decreases rest.len(),
            {
                let ghost before = rest.deep_view();
                let last = rest.pop().unwrap();
                assert(last@ == before[before.len() - 1]);
                assert(rest.deep_view() =~= all.take(rest.len() as int));
                r.push(last);
            }
            assert(r.deep_view() =~= all.reverse());
            r
        },
    }
}

/// The scrollback after a run of the code in the input: the code as it was
/// highlighted, then what came out of it, text cut down; or the error as the
/// only output.
pub open spec fn ran(
    buffer: Seq<ItemView>,
    highlighted: Result<Seq<SpanView>, Seq<char>>,
    outcome: Result<Seq<OutputView>, Seq<char>>,
) -> Seq<ItemView> {
    buffer.push(ItemView::Input(highlighted)).push(
        match outcome {
            Ok(outputs) => ItemView::Output(all_clipped(outputs)),
            Err(reason) => ItemView::Output(seq![OutputView::Text(reason)]),
        },
    )
}

/// The input after a run: emptied after an error and where the settings ask
/// for it, else kept.
pub open spec fn input_after_run(
    input: Seq<char>,
    failed: bool,
    clean_input_on_run: bool,
) -> Seq<char> {
    if failed || clean_input_on_run {
        Seq::empty()
    } else {
        input
    }
}

/// The view of highlighted code or of the reason it could not be
/// highlighted.
pub open spec fn highlighted_view(highlighted: Result<Vec<UiuappHistorySpan>, String>) -> Result<
    Seq<SpanView>,
    Seq<char>,
> {
    match highlighted {
        Ok(spans) => Ok(spans.deep_view()),
        Err(reason) => Err(reason@),
    }
}

/// The view of the outputs of a run or of its error.
pub open spec fn outcome_view(outcome: Result<Vec<ScrollbackOutput>, String>) -> Result<
    Seq<OutputView>,
    Seq<char>,
> {
    match outcome {
        Ok(outputs) => Ok(outputs.deep_view()),
        Err(reason) => Err(reason@),
    }
}

/// Enters a run of the code in `input_contents` into the scrollback: the
/// code as it was `highlighted`, then the `outcome` of running it. Empties
/// the input after an error and where the settings ask for it.
pub fn handle_running_code(
    input_contents: &mut String,
    buffer_contents: &mut Vec<ScrollbackItem>,
    settings: &Settings,
    highlighted: Result<Vec<UiuappHistorySpan>, String>,
    outcome: Result<Vec<ScrollbackOutput>, String>,
)
    ensures
        final(buffer_contents).deep_view() == ran(
            old(buffer_contents).deep_view(),
            highlighted_view(highlighted),
            outcome_view(outcome),
        ),
        final(input_contents)@ == input_after_run(
            old(input_contents)@,
            outcome.is_err(),
            settings.clean_input_on_run,
        ),
{
    let ghost before = buffer_contents.deep_view();
    let ghost shown = highlighted_view(highlighted);
    let ghost came = outcome_view(outcome);
    buffer_contents.push(ScrollbackItem::Input(highlighted));
    assert(buffer_contents.deep_view() =~= before.push(ItemView::Input(shown)));
    let ghost middle = buffer_contents.deep_view();
    match outcome {
        Ok(outputs) => {
            let kept = clip_outputs(outputs);
            buffer_contents.push(ScrollbackItem::Output(kept));
            assert(buffer_contents.deep_view() =~= middle.push(
                ItemView::Output(all_clipped(came->Ok_0)),
            ));
            if settings.clean_input_on_run {
                *input_contents = String::new();
            }
        },
        Err(reason) => {
            let ghost text = reason@;
            let mut only: Vec<ScrollbackOutput> = Vec::new();
            only.push(ScrollbackOutput::Text(reason));
            assert(only.deep_view() =~= seq![OutputView::Text(text)]);
            buffer_contents.push(ScrollbackItem::Output(only));
            assert(buffer_contents.deep_view() =~= middle.push(
                ItemView::Output(seq![OutputView::Text(text)]),
            ));
            *input_contents = String::new();
        },
    }
}

/// A value as a picture, where it can be read as one.
#[derive(Debug)]
pub struct ImageMedia {
    pub width: u32,
    pub height: u32,
    /// The picture as a PNG file, if it could be encoded.
    pub png: Option<Vec<u8>>,
}

/// What can be made of a value that a run left behind. Whoever runs the
/// language gathers it; which form is shown is decided here.
#[derive(Debug)]
pub struct ValueMedia {
    /// The length of the value along each axis.
    pub shape: Vec<usize>,
    pub row_count: usize,
    /// The value as an animation, if it can be read as one.
    pub gif: Option<Vec<u8>>,
    pub image: Option<ImageMedia>,
    /// The value is an array of numbers that all lie within the range of
    /// audible samples.
    pub samples_in_range: bool,
    /// The value as a WAV file, if it can be read as sound.
    pub wav: Option<Vec<u8>>,
    /// The value written out as text.
    pub text: String,
}

/// Whether a value of this shape is shown as an animation: at least
/// [`MIN_AUTO_GIF_FRAMES`] frames, each at least [`MIN_AUTO_IMAGE_DIM`] high
/// and wide, with or without an axis of colour channels.
pub open spec fn animates(shape: Seq<usize>) -> bool {
    &&& shape.len() == 3 || shape.len() == 4
    &&& shape[0] >= MIN_AUTO_GIF_FRAMES
    &&& shape[1] >= MIN_AUTO_IMAGE_DIM
    &&& shape[2] >= MIN_AUTO_IMAGE_DIM
}

/// Whether a picture of this size is shown as a picture.
pub open spec fn large_enough(width: u32, height: u32) -> bool {
    width >= MIN_AUTO_IMAGE_DIM as u32 && height >= MIN_AUTO_IMAGE_DIM as u32
}

/// Whether this many rows are enough to be played: a quarter of a second of
/// samples, counted in a 32-bit word.
pub open spec fn long_enough(row_count: usize) -> bool {
    row_count as u32 >= AUDIO_SAMPLE_RATE / 4
}

impl ValueMedia {
    /// The form in which the value is shown: an animation, else a picture,
    /// else sound, each where the value can be read as one and is large
    /// enough to be meant as one; else text.
    pub open spec fn shown(self) -> OutputView {
        if self.gif.is_some() && animates(self.shape@) {
            OutputView::Gif(self.gif.unwrap()@)
        } else if self.image.is_some() && large_enough(
            self.image.unwrap().width,
            self.image.unwrap().height,
        ) && self.image.unwrap().png.is_some() {
            OutputView::Image(self.image.unwrap().png.unwrap()@)
        } else if long_enough(self.row_count) && self.samples_in_range && self.wav.is_some() {
            OutputView::Audio(self.wav.unwrap()@)
        } else {
            OutputView::Text(self.text@)
        }
    }
}

/// Whether a value of this shape is shown as an animation.
pub fn shape_animates(shape: &Vec<usize>) -> (r: bool)
    ensures
        r == animates(shape@),
{
    (shape.len() == 3 || shape.len() == 4) && shape[0] >= MIN_AUTO_GIF_FRAMES && shape[1]
        >= MIN_AUTO_IMAGE_DIM && shape[2] >= MIN_AUTO_IMAGE_DIM
}

impl ScrollbackOutput {
    /// Picks the form in which a value is shown.
    pub fn from_uiuavalue(value: ValueMedia) -> (r: Self)
        ensures
            r@ == value.shown(),
    {
        let ValueMedia { shape, row_count, gif, image, samples_in_range, wav, text } = value;
        if let Some(bytes) = gif {
            if shape_animates(&shape) {
                return ScrollbackOutput::Gif(bytes);
            }
        }
        if let Some(picture) = image {
            if picture.width >= MIN_AUTO_IMAGE_DIM as u32 && picture.height
                >= MIN_AUTO_IMAGE_DIM as u32 {
                if let Some(bytes) = picture.png {
                    return ScrollbackOutput::Image(bytes);
                }
            }
        }
        if #[verifier::truncate] (row_count as u32) >= AUDIO_SAMPLE_RATE / 4 && samples_in_range {
            if let Some(bytes) = wav {
                return ScrollbackOutput::Audio(bytes);
            }
        }
        ScrollbackOutput::Text(text)
    }
}

/// Each value of `values` in the form it is shown in.
pub open spec fn all_shown(values: Seq<ValueMedia>) -> Seq<OutputView> {
    Seq::new(values.len(), |i: int| values[i].shown())
}

/// Picks the form of each value that a run left on the stack.
pub fn show_stack(values: Vec<ValueMedia>) -> (r: Vec<ScrollbackOutput>)
    ensures
        r.deep_view() == all_shown(values@),
{
    let mut rest = values;
    let ghost all = rest@;
    let mut flipped: Vec<ScrollbackOutput> = Vec::new();
    // Taken off the end one by one, then put back in order.
    while rest.len() > 0
        invariant
            rest.len() + flipped.len() == all.len(),
            rest@ == all.take(rest.len() as int),
            forall|k: int| 0 <= k < flipped.len() ==> flipped[k]@ == all[all.len() - 1 - k].shown(),
        decreases rest.len(),
    {
        let last = rest.pop().unwrap();
        assert(rest@ =~= all.take(rest.len() as int));
        flipped.push(ScrollbackOutput::from_uiuavalue(last));
    }
    let mut r: Vec<ScrollbackOutput> = Vec::new();
    while flipped.len() > 0
        invariant
            r.len() + flipped.len() == all.len(),
            forall|k: int| 0 <= k < flipped.len() ==> flipped[k]@ == all[all.len() - 1 - k].shown(),
            forall|k: int| 0 <= k < r.len() ==> r[k]@ == all[k].shown(),
        decreases flipped.len(),
    {
        let next = flipped.pop().unwrap();
        r.push(next);
    }
    assert(r.deep_view() =~= all_shown(all));
    r
}

/// The padded base64 text of `bytes` in the standard alphabet.
pub uninterp spec fn base64_of(bytes: Seq<u8>) -> Seq<char>;

/// Whether the base64 text of this many bytes can be held in memory.
pub open spec fn encodable(len: nat) -> bool {
    len / 3 * 4 + 4 <= usize::MAX
}

/// Writes `bytes` as base64.
///
/// Trusted: `base64::Engine::encode` on the engine
/// `base64::engine::general_purpose::STANDARD`. The text depends on the bytes
/// alone. The call panics where the length of the text does not fit a machine
/// word, which the precondition rules out.
#[verifier::external_body]
pub(crate) fn to_base64(bytes: &Vec<u8>) -> (r: String)
    requires
        encodable(bytes@.len()),
    ensures
        r@ == base64_of(bytes@),
{
    base64::Engine::encode(&base64::engine::general_purpose::STANDARD, bytes)
}

/// The address under which a file of type `mime` with the content `bytes`
/// can be shown in place.
pub open spec fn data_url_of(mime: Seq<char>, bytes: Seq<u8>) -> Seq<char> {
    "data:"@ + mime + ";base64,"@ + base64_of(bytes)
}

impl OutputView {
    /// The address under which the output can be shown in place: none for
    /// text, and none for a file too large to be written out.
    pub open spec fn data_url(self) -> Option<Seq<char>> {
        match self {
            OutputView::Text(_) => None,
            OutputView::Image(bytes) => if encodable(bytes.len()) {
                Some(data_url_of("image/png"@, bytes))
            } else {
                None
            },
            OutputView::Gif(bytes) => if encodable(bytes.len()) {
                Some(data_url_of("image/gif"@, bytes))
            } else {
                None
            },
            OutputView::Audio(bytes) => if encodable(bytes.len()) {
                Some(data_url_of("audio/wav"@, bytes))
            } else {
                None
            },
        }
    }
}

/// The address under which a file of type `mime` with the content `bytes`
/// can be shown in place.
fn data_url_for(mime: &str, bytes: &Vec<u8>) -> (r: Option<String>)
    ensures
        match r {
            Some(url) => encodable(bytes@.len()) && url@ == data_url_of(mime@, bytes@),
            None => !encodable(bytes@.len()),
        },
{
    if bytes.len() / 3 > (usize::MAX - 4) / 4 {
        return None;
    }
    let mut url = String::from_str("data:");
    url.append(mime);
    url.append(";base64,");
    let encoded = to_base64(bytes);
    url.append(encoded.as_str());
    Some(url)
}

impl ScrollbackOutput {
    /// The address under which the output can be shown in place.
    pub fn data_url(&self) -> (r: Option<String>)
        ensures
            match r {
                Some(url) => self@.data_url() == Some(url@),
                None => self@.data_url().is_none(),
            },
    {
        match self {
            ScrollbackOutput::Text(_) => None,
            ScrollbackOutput::Image(bytes) => data_url_for("image/png", bytes),
            ScrollbackOutput::Gif(bytes) => data_url_for("image/gif", bytes),
            ScrollbackOutput::Audio(bytes) => data_url_for("audio/wav", bytes),
        }
    }
}

} // verus!
