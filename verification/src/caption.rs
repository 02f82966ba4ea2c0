use vstd::prelude::*;
use vstd::string::*;

verus! {

/// The character of one decimal digit.
pub open spec fn digit(d: int) -> char {
    if d == 0 {
        '0'
    } else if d == 1 {
        '1'
    } else if d == 2 {
        '2'
    } else if d == 3 {
        '3'
    } else if d == 4 {
        '4'
    } else if d == 5 {
        '5'
    } else if d == 6 {
        '6'
    } else if d == 7 {
        '7'
    } else if d == 8 {
        '8'
    } else {
        '9'
    }
}

/// The decimal digits of a natural number, most significant first, without
/// leading zeros.
pub open spec fn digits(n: nat) -> Seq<char>
    decreases n,
{
    if n < 10 {
        seq![digit(n as int)]
    } else {
        digits(n / 10).push(digit((n % 10) as int))
    }
}

/// An integer in decimal, with a minus sign in front of a negative one.
pub open spec fn decimal(n: int) -> Seq<char> {
    if n < 0 {
        seq!['-'] + digits((-n) as nat)
    } else {
        digits(n as nat)
    }
}

/// A line of text that the game shows.
#[derive(Clone, Copy, Debug, PartialEq, Eq)]
pub enum Caption {
    /// The title on the menu screen.
    Title,
    /// The menu entry that starts a game.
    PlayGame,
    /// The menu entry that leaves the program.
    QuitGame,
    /// The hint shown while playing.
    FlapHint,
    /// The running score shown while playing.
    Score(i32),
    /// The headline of the game-over screen.
    GameOver,
    /// The final score on the game-over screen.
    Earned(i32),
    /// The game-over entry that starts another game.
    PlayAgain,
}

impl Caption {
    /// The characters of the caption.
    pub open spec fn wording(self) -> Seq<char> {
        match self {
            Caption::Title => "Welcome to flippity flappity"@,
            Caption::PlayGame => "(P) Play Game"@,
            Caption::QuitGame => "(Q) Quit Game"@,
            Caption::FlapHint => "Press SPACE to flap"@,
            Caption::Score(n) => "Score: "@ + decimal(n as int),
            Caption::GameOver => "You are dead!"@,
            Caption::Earned(n) => "You earned "@ + decimal(n as int) + " points"@,
            Caption::PlayAgain => "(P) Play Again"@,
        }
    }

    /// Writes the caption out.
    pub fn text(&self) -> (s: String)
        ensures
            s@ == self.wording(),
    {
        match *self {
            Caption::Title => String::from_str("Welcome to flippity flappity"),
            Caption::PlayGame => String::from_str("(P) Play Game"),
            Caption::QuitGame => String::from_str("(Q) Quit Game"),
            Caption::FlapHint => String::from_str("Press SPACE to flap"),
            Caption::Score(n) => {
                let mut s = String::from_str("Score: ");
                push_decimal(&mut s, n);
                s
            },
            Caption::GameOver => String::from_str("You are dead!"),
            Caption::Earned(n) => {
                let mut s = String::from_str("You earned ");
                push_decimal(&mut s, n);
                s.append(" points");
                s
            },
            Caption::PlayAgain => String::from_str("(P) Play Again"),
        }
    }
}

/// The one-character string of a decimal digit.
fn digit_str(d: u32) -> (s: &'static str)
    requires
        d < 10,
    ensures
        s@ == seq![digit(d as int)],
{
    proof {
        reveal_strlit("0");
        reveal_strlit("1");
        reveal_strlit("2");
        reveal_strlit("3");
        reveal_strlit("4");
        reveal_strlit("5");
        reveal_strlit("6");
        reveal_strlit("7");
        reveal_strlit("8");
        reveal_strlit("9");
    }
    let s = if d == 0 {
        "0"
    } else if d == 1 {
        "1"
    } else if d == 2 {
        "2"
    } else if d == 3 {
        "3"
    } else if d == 4 {
        "4"
    } else if d == 5 {
        "5"
    } else if d == 6 {
        "6"
    } else if d == 7 {
        "7"
    } else if d == 8 {
        "8"
    } else {
        "9"
    };
    s
}

/// Appends the digits of `n` to `out`.
fn push_digits(out: &mut String, n: u32)
    ensures
        final(out)@ == old(out)@ + digits(n as nat),
    decreases n,
{
    if n >= 10 {
        push_digits(out, n / 10);
    }
    out.append(digit_str(n % 10));
}

/// Appends `n` in decimal to `out`.
fn push_decimal(out: &mut String, n: i32)
    ensures
        final(out)@ == old(out)@ + decimal(n as int),
{
    if n < 0 {
        proof {
            reveal_strlit("-");
        }
        out.append("-");
        let magnitude: u32 = if n == i32::MIN {
            2147483648u32
        } else {
            (-n) as u32
        };
        push_digits(out, magnitude);
    } else {
        push_digits(out, n as u32);
    }
}

} // verus!
