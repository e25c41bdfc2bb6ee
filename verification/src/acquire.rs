//! The capture handshake: how a request for a still image becomes exactly
//! one demosaiced frame in one file.
//!
//! 1. Whoever wants an image sets the request flag. Setting it again while
//!    it is set changes nothing: requests are not queued.
//! 2. The render loop sees the flag, renders to the offscreen target, reads
//!    the result back and reports with [`AcquisitionState::frame_finished`].
//!    If every call of the frame was made, the image is taken: the frame id
//!    of the output buffer is raised, and the flag stays set.
//! 3. The poller, once per tick of the user interface, compares the frame id
//!    with the one it saw last. If it changed, the image is handed out with
//!    the name of the file to write, and the flag is cleared.

use vstd::prelude::*;
use vstd::slice::slice_to_vec;
use crate::demosaic::{GlCall, Texture};
use crate::pixel::{image_len, PixelData, PixelFormat};

verus! {

/// Appends the character to the end of the string, as `String::push` of std
/// is documented to do.
pub assume_specification[ String::push ](s: &mut String, c: char)
    ensures
        final(s)@ == old(s)@.push(c),
;

/// Appends the string slice to the end of the string, as `String::push_str`
/// of std is documented to do.
pub assume_specification[ String::push_str ](s: &mut String, t: &str)
    ensures
        final(s)@ == old(s)@ + t@,
;

/// Whether `s` has the shape of a session stamp: day, month, year, a hyphen,
/// hour and minute, each number with two digits.
pub open spec fn is_stamp(s: Seq<char>) -> bool {
    &&& s.len() == 11
    &&& s[6] == '-'
    &&& forall|i: int| 0 <= i < 11 && i != 6 ==> '0' <= #[trigger] s[i] <= '9'
}

/// The character of a decimal digit.
pub open spec fn spec_digit_char(d: int) -> char {
    if d == 0 {
        '0'
    } else if d == 1 {
        '1'
    } else if d == 2 {
        '2'
    } else if d == 3 {
        '3'
    } else if d == 4 {
        '4'
    } else if d == 5 {
        '5'
    } else if d == 6 {
        '6'
    } else if d == 7 {
        '7'
    } else if d == 8 {
        '8'
    } else {
        '9'
    }
}

fn digit_char(d: usize) -> (c: char)
    requires
        d < 10,
    ensures
        c == spec_digit_char(d as int),
{
    if d == 0 {
        '0'
    } else if d == 1 {
        '1'
    } else if d == 2 {
        '2'
    } else if d == 3 {
        '3'
    } else if d == 4 {
        '4'
    } else if d == 5 {
        '5'
    } else if d == 6 {
        '6'
    } else if d == 7 {
        '7'
    } else if d == 8 {
        '8'
    } else {
        '9'
    }
}

/// The decimal digits of a number, without leading zeros.
pub open spec fn decimal(n: nat) -> Seq<char>
    decreases n,
{
    if n < 10 {
        seq![spec_digit_char(n as int)]
    } else {
        decimal(n / 10).push(spec_digit_char((n % 10) as int))
    }
}

/// The decimal digits of a number, with zeros in front of fewer than four.
pub open spec fn sequence_number(n: nat) -> Seq<char> {
    let zeros = if n < 10 {
        "000"@
    } else if n < 100 {
        "00"@
    } else if n < 1000 {
        "0"@
    } else {
        Seq::<char>::empty()
    };
    zeros + decimal(n)
}

/// The name of the file for the image with sequence number `count` of the
/// session with the given stamp.
pub open spec fn filename(stamp: Seq<char>, count: nat) -> Seq<char> {
    "/tmp/"@ + stamp + "-"@ + sequence_number(count) + ".rgb8.raw"@
}

/// The last two decimal digits of a number, the tens first.
pub open spec fn two_digits(v: int) -> Seq<char> {
    seq![spec_digit_char((v % 100) / 10), spec_digit_char((v % 100) % 10)]
}

/// The moment at which a session started, as calendar and clock show it in
/// local time.
#[derive(Copy, Clone, Debug, PartialEq, Eq, Structural)]
pub struct SessionStart {
    pub year: i32,
    pub month: u32,
    pub day: u32,
    pub hour: u32,
    pub minute: u32,
}

impl SessionStart {
    /// The stamp of the session: day, month, year, a hyphen, hour and
    /// minute, two digits each. Of the year these are the last two.
    pub open spec fn spec_stamp(&self) -> Seq<char> {
        two_digits(self.day as int) + two_digits(self.month as int) + two_digits(self.year as int)
            + seq!['-'] + two_digits(self.hour as int) + two_digits(self.minute as int)
    }

    /// The stamp of the session as text.
    pub fn stamp(&self) -> (text: String)
        ensures
            text@ == self.spec_stamp(),
    {
        let day = (self.day % 100) as usize;
        let month = (self.month % 100) as usize;
        let year = year_in_century(self.year);
        let hour = (self.hour % 100) as usize;
        let minute = (self.minute % 100) as usize;
        proof {
            lemma_two_digits_of_remainder(self.day as int);
            lemma_two_digits_of_remainder(self.month as int);
            lemma_two_digits_of_remainder(self.year as int);
            lemma_two_digits_of_remainder(self.hour as int);
            lemma_two_digits_of_remainder(self.minute as int);
        }
        let mut text = String::new();
        push_two_digits(&mut text, day);
        push_two_digits(&mut text, month);
        push_two_digits(&mut text, year);
        text.push('-');
        push_two_digits(&mut text, hour);
        push_two_digits(&mut text, minute);
        assert(text@ =~= two_digits(day as int) + two_digits(month as int) + two_digits(
            year as int,
        ) + seq!['-'] + two_digits(hour as int) + two_digits(minute as int));
        text
    }
}

/// The remainder of a year in its century, counted from the century below
/// for a year before the year 0.
fn year_in_century(year: i32) -> (r: usize)
    ensures
        r == year as int % 100,
        r < 100,
{
    if year >= 0 {
        (year % 100) as usize
    } else {
        let below: i32 = -(year + 1);
        (99 - below % 100) as usize
    }
}

proof fn lemma_two_digits_of_remainder(v: int)
    ensures
        two_digits(v % 100) == two_digits(v),
{
}

fn push_two_digits(out: &mut String, v: usize)
    requires
        v < 100,
    ensures
        final(out)@ == old(out)@ + two_digits(v as int),
{
    out.push(digit_char(v / 10));
    out.push(digit_char(v % 10));
    assert(out@ =~= old(out)@ + two_digits(v as int));
}

/// Every stamp has the shape of a stamp, whatever the numbers are.
pub proof fn lemma_stamp_has_its_shape(start: SessionStart)
    ensures
        is_stamp(start.spec_stamp()),
{
    let s = start.spec_stamp();
    assert(s.len() == 11);
    assert forall|i: int| 0 <= i < 11 && i != 6 implies '0' <= #[trigger] s[i] <= '9' by {
        lemma_two_digits_are_digits(start.day as int);
        lemma_two_digits_are_digits(start.month as int);
        lemma_two_digits_are_digits(start.year as int);
        lemma_two_digits_are_digits(start.hour as int);
        lemma_two_digits_are_digits(start.minute as int);
    }
}

proof fn lemma_two_digits_are_digits(v: int)
    ensures
        two_digits(v).len() == 2,
        '0' <= two_digits(v)[0] <= '9',
        '0' <= two_digits(v)[1] <= '9',
{
}

/// A sequence number below ten thousand takes exactly four characters.
pub proof fn lemma_sequence_number_has_four_digits(n: nat)
    requires
        n < 10_000,
    ensures
        sequence_number(n).len() == 4,
{
    reveal_strlit("000");
    reveal_strlit("00");
    reveal_strlit("0");
    reveal_with_fuel(decimal, 5);
}

fn push_decimal(out: &mut String, n: usize)
    ensures
        final(out)@ == old(out)@ + decimal(n as nat),
    decreases n,
{
    if n >= 10 {
        push_decimal(out, n / 10);
    }
    out.push(digit_char(n % 10));
    assert(out@ =~= old(out)@ + decimal(n as nat));
}

/// The handshake as its contracts see it.
pub struct HandshakeView {
    /// An image was asked for and was not handed out yet.
    pub pending: bool,
    /// Frame id of the output buffer.
    pub frame_id: usize,
    /// Frame id that the poller saw last.
    pub last_seen_id: usize,
    /// Number of images that were handed out.
    pub count: usize,
}

impl HandshakeView {
    /// Nothing is asked for and nothing waits to be handed out.
    pub open spec fn idle(self) -> bool {
        !self.pending && self.frame_id == self.last_seen_id
    }

    /// After an image was asked for.
    pub open spec fn request(self) -> HandshakeView {
        HandshakeView { pending: true, ..self }
    }

    /// After the render loop passed by with an image of the right size.
    pub open spec fn fulfil(self) -> HandshakeView {
        if self.pending {
            HandshakeView { frame_id: (self.frame_id + 1) as usize, ..self }
        } else {
            self
        }
    }

    /// Whether the poller hands out an image.
    pub open spec fn writes(self) -> bool {
        self.frame_id != self.last_seen_id
    }

    /// While no image is asked for, none waits to be handed out.
    pub open spec fn in_step(self) -> bool {
        !self.pending ==> self.frame_id == self.last_seen_id
    }

    /// After the poller passed by.
    pub open spec fn poll(self) -> HandshakeView {
        if self.writes() {
            HandshakeView {
                pending: false,
                last_seen_id: self.frame_id,
                count: (self.count + 1) as usize,
                ..self
            }
        } else {
            self
        }
    }
}

/// One request gives one file: from rest, a request, the render loop and the
/// poller hand out exactly one image and clear the flag, and the poller
/// finds nothing more after that.
pub proof fn lemma_one_request_one_file(v: HandshakeView)
    requires
        v.idle(),
        v.frame_id < usize::MAX,
        v.count < usize::MAX,
    ensures
        v.request().fulfil().writes(),
        v.request().fulfil().poll().count == v.count + 1,
        v.request().fulfil().poll().idle(),
        !v.request().fulfil().poll().writes(),
        v.request().fulfil().poll().poll() == v.request().fulfil().poll(),
{
}

/// Requests are coalesced: a second request before the image was handed out
/// changes nothing, whether it comes before or after the render loop, and
/// still one file is written.
pub proof fn lemma_requests_are_coalesced(v: HandshakeView)
    requires
        v.idle(),
        v.frame_id < usize::MAX,
        v.count < usize::MAX,
    ensures
        v.request().request() == v.request(),
        v.request().fulfil().request() == v.request().fulfil(),
        v.request().request().fulfil().poll() == v.request().fulfil().poll(),
        v.request().fulfil().request().poll().count == v.count + 1,
        v.request().fulfil().request().poll().idle(),
{
}

/// Nothing is written without the render loop, and the render loop does
/// nothing without a request.
pub proof fn lemma_no_file_without_capture(v: HandshakeView)
    requires
        v.idle(),
    ensures
        v.fulfil() == v,
        v.poll() == v,
        !v.request().writes(),
        v.request().poll() == v.request(),
{
}

/// While no image is asked for, none waits to be handed out: this holds of a
/// new session, and every step of the handshake keeps it. So the poller
/// finds nothing unless an image was asked for since it last found one.
pub proof fn lemma_no_file_without_request(v: HandshakeView)
    requires
        v.in_step(),
    ensures
        v.request().in_step(),
        v.fulfil().in_step(),
        v.poll().in_step(),
        (HandshakeView { pending: false, frame_id: 0, last_seen_id: 0, count: 0 }).in_step(),
        !v.pending ==> !v.writes() && v.poll() == v,
{
}

/// How a displayed frame ended.
#[derive(Copy, Clone, Debug, PartialEq, Eq, Structural)]
pub enum FrameOutcome {
    /// Every call was made; the frame held no capture.
    Drawn,
    /// Every call was made, and the image that was read back was taken.
    Captured,
    /// Every call was made, but the image that was read back was not taken:
    /// none is asked for, or it has not the size of the output buffer.
    NotTaken,
    /// A call failed. Nothing is taken from a frame that was not finished;
    /// the pipeline cannot go on.
    Failed,
}

/// The call that reads the captured image back.
pub open spec fn read_back() -> GlCall {
    GlCall::ReadBack { texture: Texture::Output }
}

/// Whether a sequence of calls reads the captured image back.
pub fn reads_back(script: &Vec<GlCall>) -> (yes: bool)
    ensures
        yes == script@.contains(read_back()),
{
    let mut i: usize = 0;
    while i < script.len()
        invariant
            i <= script.len(),
            forall|j: int| 0 <= j < i ==> script@[j] != read_back(),
        decreases script.len() - i,
    {
        if script[i] == (GlCall::ReadBack { texture: Texture::Output }) {
            return true;
        }
        i = i + 1;
    }
    false
}

/// State associated with image acquisition.
pub struct AcquisitionState {
    /// Container for a demosaiced image acquired from the renderer.
    data: PixelData,
    /// Signal used to request a demosaiced image from the renderer.
    pending: bool,
    /// Session start time
    session_start: SessionStart,
    /// Number of acquired images [during this session]
    count: usize,
    /// Frame id of `data` when the last image was handed out
    last_seen_id: usize,
}

impl View for AcquisitionState {
    type V = HandshakeView;

    closed spec fn view(&self) -> HandshakeView {
        HandshakeView {
            pending: self.pending,
            frame_id: self.data.spec_frame_id(),
            last_seen_id: self.last_seen_id,
            count: self.count,
        }
    }
}

impl AcquisitionState {
    /// The stamp of the session, which is part of every file name.
    pub closed spec fn spec_stamp(&self) -> Seq<char> {
        self.session_start.spec_stamp()
    }

    /// The image that was captured last.
    pub closed spec fn spec_data(&self) -> PixelData {
        self.data
    }

    /// A session that started at `start`, at rest, with an output buffer of
    /// the given format and dimensions.
    pub fn new(fmt: PixelFormat, w: usize, h: usize, start: SessionStart) -> (res: Self)
        requires
            image_len(fmt, w as int, h as int) <= usize::MAX,
        ensures
            res@ == (HandshakeView { pending: false, frame_id: 0, last_seen_id: 0, count: 0 }),
            res.spec_stamp() == start.spec_stamp(),
            res.spec_data().sized(),
            res.spec_data().spec_format() == fmt,
            res.spec_data().spec_width() == w,
            res.spec_data().spec_height() == h,
            forall|i: int| 0 <= i < res.spec_data()@.len() ==> res.spec_data()@[i] == 0,
    {
        Self {
            data: PixelData::new(fmt, w, h),
            pending: false,
            count: 0,
            session_start: start,
            last_seen_id: 0,
        }
    }

    pub fn data(&self) -> (d: &PixelData)
        ensures
            *d == self.spec_data(),
    {
        &self.data
    }

    pub fn pending(&self) -> (p: bool)
        ensures
            p == self@.pending,
    {
        self.pending
    }

    /// Number of images that were handed out in this session.
    pub fn count(&self) -> (n: usize)
        ensures
            n == self@.count,
    {
        self.count
    }

    /// The name of the file that the next image goes to.
    pub fn next_filename(&self) -> (name: String)
        ensures
            name@ == filename(self.spec_stamp(), self@.count as nat),
    {
        let mut name = String::new();
        name.push_str("/tmp/");
        let stamp = self.session_start.stamp();
        name.push_str(stamp.as_str());
        name.push_str("-");
        if self.count < 10 {
            name.push_str("000");
        } else if self.count < 100 {
            name.push_str("00");
        } else if self.count < 1000 {
            name.push_str("0");
        }
        push_decimal(&mut name, self.count);
        assert(name@ =~= "/tmp/"@ + self.session_start.spec_stamp() + "-"@ + sequence_number(
            self.count as nat,
        ));
        name.push_str(".rgb8.raw");
        name
    }

    /// Asks for an image.
    pub fn request(&mut self)
        ensures
            final(self)@ == old(self)@.request(),
            final(self).spec_stamp() == old(self).spec_stamp(),
            final(self).spec_data() == old(self).spec_data(),
    {
        self.pending = true;
    }

    /// Takes the image that the render loop read back. While an image is
    /// asked for, and if `rgb` has the size of the output buffer, it is
    /// copied there and the frame id is raised; the request stays set. Else
    /// nothing changes.
    pub fn fulfil(&mut self, rgb: &[u8]) -> (taken: bool)
        requires
            old(self)@.frame_id < usize::MAX,
        ensures
            taken <==> old(self)@.pending && rgb@.len() == old(self).spec_data()@.len(),
            taken ==> final(self)@ == old(self)@.fulfil() && final(self).spec_data()@ == rgb@,
            !taken ==> final(self)@ == old(self)@ && final(self).spec_data() == old(
                self,
            ).spec_data(),
            final(self).spec_stamp() == old(self).spec_stamp(),
            old(self).spec_data().sized() ==> final(self).spec_data().sized(),
    {
        if !self.pending {
            return false;
        }
        match self.data.fill_from_slice(rgb) {
            Ok(()) => {
                self.data.increment_frame_id();
                true
            },
            Err(_) => false,
        }
    }

    /// Takes what became of a displayed frame: `script` is the sequence of
    /// calls of the frame, `done` the number of them that were made before
    /// one failed or the sequence ended, and `rgb` what a read-back brought.
    /// The image is taken only from a frame whose calls were all made and
    /// which read it back, as [`AcquisitionState::fulfil`] takes it. A frame
    /// that was cut short changes nothing.
    pub fn frame_finished(&mut self, script: &Vec<GlCall>, done: usize, rgb: &[u8]) -> (outcome:
        FrameOutcome)
        requires
            old(self)@.frame_id < usize::MAX,
        ensures
            outcome == if done < script@.len() {
                FrameOutcome::Failed
            } else if !script@.contains(read_back()) {
                FrameOutcome::Drawn
            } else if old(self)@.pending && rgb@.len() == old(self).spec_data()@.len() {
                FrameOutcome::Captured
            } else {
                FrameOutcome::NotTaken
            },
            outcome == FrameOutcome::Captured ==> final(self)@ == old(self)@.fulfil(),
            outcome == FrameOutcome::Captured ==> final(self).spec_data()@ == rgb@,
            outcome != FrameOutcome::Captured ==> final(self)@ == old(self)@,
            outcome != FrameOutcome::Captured ==> final(self).spec_data() == old(self).spec_data(),
            final(self).spec_stamp() == old(self).spec_stamp(),
            old(self).spec_data().sized() ==> final(self).spec_data().sized(),
    {
        if done < script.len() {
            FrameOutcome::Failed
        } else if !reads_back(script) {
            FrameOutcome::Drawn
        } else if self.fulfil(rgb) {
            FrameOutcome::Captured
        } else {
            FrameOutcome::NotTaken
        }
    }

    /// Looks for a new image. If the frame id of the output buffer is not
    /// the one seen last, the name of the file to write and a copy of the
    /// image are handed out, the sequence number goes up by one and the
    /// request is cleared.
    pub fn poll(&mut self) -> (res: Option<(String, Vec<u8>)>)
        requires
            old(self)@.count < usize::MAX,
        ensures
            final(self)@ == old(self)@.poll(),
            res is Some <==> old(self)@.writes(),
            res matches Some((name, bytes)) ==> name@ == filename(
                old(self).spec_stamp(),
                old(self)@.count as nat,
            ) && bytes@ == old(self).spec_data()@,
            final(self).spec_stamp() == old(self).spec_stamp(),
            final(self).spec_data() == old(self).spec_data(),
    {
        let id = self.data.frame_id();
        if id == self.last_seen_id {
            return None;
        }
        let name = self.next_filename();
        let bytes = slice_to_vec(self.data.as_slice());
        self.last_seen_id = id;
        self.count = self.count + 1;
        self.pending = false;
        Some((name, bytes))
    }
}

} // verus!
