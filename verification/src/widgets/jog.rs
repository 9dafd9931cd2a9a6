//! Jog widget: manual motion of one axis by a fixed step.

use vstd::prelude::*;
use crate::text::{chars_of, string_of, extend, extend_str, decimal, decimal_of, digit_char, digit_of};

verus! {

/// Step sizes for jogging.
#[derive(Debug, Clone, Copy, PartialEq, Eq, Structural)]
pub enum JogStepSize {
    /// 0.1 mm
    Small,
    /// 1.0 mm
    Normal,
    /// 10 mm
    Large,
    /// 50 mm
    Huge,
}

impl JogStepSize {
    /// The step in hundredths of a millimetre.
    pub open spec fn hundredths_spec(&self) -> i64 {
        match *self {
            JogStepSize::Small => 10,
            JogStepSize::Normal => 100,
            JogStepSize::Large => 1000,
            JogStepSize::Huge => 5000,
        }
    }

    /// The step in hundredths of a millimetre.
    #[verifier::when_used_as_spec(hundredths_spec)]
    pub fn hundredths(&self) -> (r: i64)
        ensures
            r == self.hundredths_spec(),
    {
        match self {
            JogStepSize::Small => 10,
            JogStepSize::Normal => 100,
            JogStepSize::Large => 1000,
            JogStepSize::Huge => 5000,
        }
    }

    /// The step as text.
    pub fn as_str(&self) -> (r: &'static str)
        ensures
            r@ == match *self {
                JogStepSize::Small => "0.1mm"@,
                JogStepSize::Normal => "1.0mm"@,
                JogStepSize::Large => "10mm"@,
                JogStepSize::Huge => "50mm"@,
            },
    {
        match self {
            JogStepSize::Small => "0.1mm",
            JogStepSize::Normal => "1.0mm",
            JogStepSize::Large => "10mm",
            JogStepSize::Huge => "50mm",
        }
    }
}

/// A distance given in hundredths, written with two decimal places.
pub open spec fn distance_text(hundredths: i64) -> Seq<char> {
    let magnitude: nat = if hundredths < 0 {
        (-hundredths) as nat
    } else {
        hundredths as nat
    };
    (if hundredths < 0 {
        seq!['-']
    } else {
        Seq::empty()
    }) + decimal(magnitude / 100) + seq![
        '.',
        digit_char((magnitude / 10 % 10) as int),
        digit_char((magnitude % 10) as int),
    ]
}

/// The jog command for one axis: relative motion in millimetres by the
/// distance, at the feed rate.
pub open spec fn jog_command_text(axis: char, hundredths: i64, feed_rate: u32) -> Seq<char> {
    "$J=G91 G21 "@ + seq![axis] + distance_text(hundredths) + " F"@ + decimal(feed_rate as nat)
}

/// Formats the jog command for one axis.
pub fn jog_command(axis: char, hundredths: i64, feed_rate: u32) -> (r: String)
    ensures
        r@ == jog_command_text(axis, hundredths, feed_rate),
{
    let mut v = chars_of("$J=G91 G21 ");
    v.push(axis);
    let magnitude: u64 = if hundredths < 0 {
        v.push('-');
        if hundredths == i64::MIN {
            9223372036854775808u64
        } else {
            (-hundredths) as u64
        }
    } else {
        hundredths as u64
    };
    let whole = decimal_of((magnitude / 100) as u128);
    extend(&mut v, &whole);
    v.push('.');
    v.push(digit_of((magnitude / 10 % 10) as u8));
    v.push(digit_of((magnitude % 10) as u8));
    assert(v@ == "$J=G91 G21 "@ + seq![axis] + distance_text(hundredths));
    extend_str(&mut v, " F");
    let feed = decimal_of(feed_rate as u128);
    extend(&mut v, &feed);
    string_of(&v)
}

/// Feed rate of jogs along X and Y.
pub const JOG_FEED_XY: u32 = 600;

/// Feed rate of jogs along Z.
pub const JOG_FEED_Z: u32 = 300;

/// State of the jog widget. Moves are in hundredths of a millimetre.
#[derive(Debug)]
pub struct JogWidget {
    pub step_size: JogStepSize,
    pub last_x_move: i64,
    pub last_y_move: i64,
    pub last_z_move: i64,
    pub current_command: Option<String>,
}

impl JogWidget {
    /// A widget with the normal step and no move made.
    pub fn new() -> (r: JogWidget)
        ensures
            r.step_size == JogStepSize::Normal,
            r.last_x_move == 0,
            r.last_y_move == 0,
            r.last_z_move == 0,
            r.current_command is None,
    {
        JogWidget {
            step_size: JogStepSize::Normal,
            last_x_move: 0,
            last_y_move: 0,
            last_z_move: 0,
            current_command: None,
        }
    }

    /// Jogs X by one step in the positive direction.
    pub fn jog_x_positive(&mut self) -> (cmd: String)
        ensures
            cmd@ == jog_command_text('X', old(self).step_size.hundredths_spec(), JOG_FEED_XY),
            *final(self) == (JogWidget {
                last_x_move: old(self).step_size.hundredths_spec(),
                current_command: Some(cmd),
                ..*old(self)
            }),
    {
        let step = self.step_size.hundredths();
        self.last_x_move = step;
        let cmd = jog_command('X', step, JOG_FEED_XY);
        self.current_command = Some(cmd.clone());
        cmd
    }

    /// Jogs X by one step in the negative direction.
    pub fn jog_x_negative(&mut self) -> (cmd: String)
        ensures
            cmd@ == jog_command_text(
                'X',
                (-old(self).step_size.hundredths_spec()) as i64,
                JOG_FEED_XY,
            ),
            *final(self) == (JogWidget {
                last_x_move: (-old(self).step_size.hundredths_spec()) as i64,
                current_command: Some(cmd),
                ..*old(self)
            }),
    {
        let step = -self.step_size.hundredths();
        self.last_x_move = step;
        let cmd = jog_command('X', step, JOG_FEED_XY);
        self.current_command = Some(cmd.clone());
        cmd
    }

    /// Jogs Y by one step in the positive direction.
    pub fn jog_y_positive(&mut self) -> (cmd: String)
        ensures
            cmd@ == jog_command_text('Y', old(self).step_size.hundredths_spec(), JOG_FEED_XY),
            *final(self) == (JogWidget {
                last_y_move: old(self).step_size.hundredths_spec(),
                current_command: Some(cmd),
                ..*old(self)
            }),
    {
        let step = self.step_size.hundredths();
        self.last_y_move = step;
        let cmd = jog_command('Y', step, JOG_FEED_XY);
        self.current_command = Some(cmd.clone());
        cmd
    }

    /// Jogs Y by one step in the negative direction.
    pub fn jog_y_negative(&mut self) -> (cmd: String)
        ensures
            cmd@ == jog_command_text(
                'Y',
                (-old(self).step_size.hundredths_spec()) as i64,
                JOG_FEED_XY,
            ),
            *final(self) == (JogWidget {
                last_y_move: (-old(self).step_size.hundredths_spec()) as i64,
                current_command: Some(cmd),
                ..*old(self)
            }),
    {
        let step = -self.step_size.hundredths();
        self.last_y_move = step;
        let cmd = jog_command('Y', step, JOG_FEED_XY);
        self.current_command = Some(cmd.clone());
        cmd
    }

    /// Jogs Z by one step in the positive direction.
    pub fn jog_z_positive(&mut self) -> (cmd: String)
        ensures
            cmd@ == jog_command_text('Z', old(self).step_size.hundredths_spec(), JOG_FEED_Z),
            *final(self) == (JogWidget {
                last_z_move: old(self).step_size.hundredths_spec(),
                current_command: Some(cmd),
                ..*old(self)
            }),
    {
        let step = self.step_size.hundredths();
        self.last_z_move = step;
        let cmd = jog_command('Z', step, JOG_FEED_Z);
        self.current_command = Some(cmd.clone());
        cmd
    }

    /// Jogs Z by one step in the negative direction.
    pub fn jog_z_negative(&mut self) -> (cmd: String)
        ensures
            cmd@ == jog_command_text(
                'Z',
                (-old(self).step_size.hundredths_spec()) as i64,
                JOG_FEED_Z,
            ),
            *final(self) == (JogWidget {
                last_z_move: (-old(self).step_size.hundredths_spec()) as i64,
                current_command: Some(cmd),
                ..*old(self)
            }),
    {
        let step = -self.step_size.hundredths();
        self.last_z_move = step;
        let cmd = jog_command('Z', step, JOG_FEED_Z);
        self.current_command = Some(cmd.clone());
        cmd
    }

    /// Sets the step size.
    pub fn set_step_size(&mut self, size: JogStepSize)
        ensures
            *final(self) == (JogWidget { step_size: size, ..*old(self) }),
    {
        self.step_size = size;
    }

    /// The step sizes on offer, smallest first.
    pub fn step_sizes() -> (r: Vec<JogStepSize>)
        ensures
            r@ == seq![
                JogStepSize::Small,
                JogStepSize::Normal,
                JogStepSize::Large,
                JogStepSize::Huge,
            ],
    {
        let mut r: Vec<JogStepSize> = Vec::new();
        r.push(JogStepSize::Small);
        r.push(JogStepSize::Normal);
        r.push(JogStepSize::Large);
        r.push(JogStepSize::Huge);
        r
    }

    /// The command that unlocks the machine after an alarm.
    pub fn unlock(&self) -> (r: String)
        ensures
            r@ == "$X"@,
    {
        "$X".to_owned()
    }

    /// The command that resumes from a hold.
    pub fn resume(&self) -> (r: String)
        ensures
            r@ == "~"@,
    {
        "~".to_owned()
    }
}

impl Default for JogWidget {
    fn default() -> (r: JogWidget)
        ensures
            r.step_size == JogStepSize::Normal,
            r.last_x_move == 0,
            r.last_y_move == 0,
            r.last_z_move == 0,
            r.current_command is None,
    {
        JogWidget::new()
    }
}

} // verus!
