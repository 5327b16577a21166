//! Clean-up of dropped items in the game world, the routing of button presses, and the lines
//! typed into the game console.
use vstd::prelude::*;
use crate::config::Config;
use crate::text::{contains, equals, has_prefix, has_suffix, occurs_at, trim, trim_str};

verus! {

broadcast use vstd::string::group_string_axioms;

/// The two clean-up runs: dropped clothes, and dropped building materials and debris.
#[derive(Clone, Copy, PartialEq, Eq, Debug)]
pub enum DestroyKind {
    Clothes,
    Materials,
}

/// The button id of the clean-up run `k`.
pub open spec fn destroy_button(k: DestroyKind) -> Seq<char> {
    match k {
        DestroyKind::Clothes => "destroy_type1"@,
        DestroyKind::Materials => "destroy_type2"@,
    }
}

/// The clean-up run that the button `id` starts, if any.
pub open spec fn kind_of_button(id: Seq<char>) -> Option<DestroyKind> {
    if id == destroy_button(DestroyKind::Clothes) {
        Some(DestroyKind::Clothes)
    } else if id == destroy_button(DestroyKind::Materials) {
        Some(DestroyKind::Materials)
    } else {
        None
    }
}

/// The button of each clean-up run starts that run and no other.
pub proof fn lemma_destroy_button_roundtrip(k: DestroyKind)
    ensures
        kind_of_button(destroy_button(k)) == Some(k),
{
    reveal_strlit("destroy_type1");
    reveal_strlit("destroy_type2");
    assert(destroy_button(DestroyKind::Clothes)[12] != destroy_button(DestroyKind::Materials)[12]);
}

/// The announcement before a clean-up run `k` that a member started.
pub open spec fn start_line(k: DestroyKind) -> Seq<char> {
    match k {
        DestroyKind::Clothes => "#Announce บอทกำลังลบชุด/เสื้อผ้า บอทหยุดชั่วคราว!"@,
        DestroyKind::Materials => "#Announce บอทกำลังลบวัสดุก่อสร้าง/เศษไม้ บอทหยุดชั่วคราว!"@,
    }
}

/// The announcement after a clean-up run `k` that a member started.
pub open spec fn end_line(k: DestroyKind) -> Seq<char> {
    match k {
        DestroyKind::Clothes => "#Announce บอทลบชุด/เสื้อผ้าสำเร็จ สามารถใช้บอทต่อได้!"@,
        DestroyKind::Materials => "#Announce บอทลบวัสดุก่อสร้าง/เศษไม้สำเร็จ สามารถใช้บอทต่อได้!"@,
    }
}

/// The announcement before a scheduled clean-up run `k`.
pub open spec fn auto_start_line(k: DestroyKind) -> Seq<char> {
    match k {
        DestroyKind::Clothes => "#Announce บอทกำลังลบชุด/เสื้อผ้าอัตโนมัติ บอทหยุดชั่วคราว!"@,
        DestroyKind::Materials => "#Announce บอทกำลังลบวัสดุก่อสร้าง บอทหยุดชั่วคราว!"@,
    }
}

/// The announcement after a scheduled clean-up run `k`.
pub open spec fn auto_end_line(k: DestroyKind) -> Seq<char> {
    match k {
        DestroyKind::Clothes => "#Announce บอทลบชุด/เสื้อผ้าอัตโนมัติสำเร็จ สามารถใช้บอทต่อได้!"@,
        DestroyKind::Materials => "#Announce บอทลบวัสดุก่อสร้าง สามารถใช้บอทต่อได้!"@,
    }
}

/// The seconds between two scheduled runs of the clean-up `k`: half an hour for clothes, two
/// hours for building materials.
pub open spec fn auto_period(k: DestroyKind) -> u64 {
    match k {
        DestroyKind::Clothes => 1800,
        DestroyKind::Materials => 7200,
    }
}

/// The in-game commands of the clean-up `k` in `config`.
pub open spec fn cleanup_commands(config: &Config, k: DestroyKind) -> Seq<Seq<char>> {
    match k {
        DestroyKind::Clothes => config.destroy_commands_type1@.map_values(|s: String| s@),
        DestroyKind::Materials => config.destroy_commands_type2@.map_values(|s: String| s@),
    }
}

/// What a clean-up run `k` is about, as its announcements name it: clothes, or building
/// materials.
pub open spec fn subject(k: DestroyKind) -> Seq<char> {
    match k {
        DestroyKind::Clothes => "ชุด/เสื้อผ้า"@,
        DestroyKind::Materials => "วัสดุก่อสร้าง"@,
    }
}

/// Every clean-up announcement is a `#Announce` line that names what the run removes; the
/// announcements at the start of a run say the bot is paused ("บอทหยุดชั่วคราว!"), those at its end
/// say the bot can be used again ("สามารถใช้บอทต่อได้!"), so a run never ends with its start
/// announcement.
pub proof fn lemma_announcement_texts(k: DestroyKind)
    ensures
        has_prefix(start_line(k), "#Announce "@) && has_prefix(end_line(k), "#Announce "@),
        has_prefix(auto_start_line(k), "#Announce "@) && has_prefix(auto_end_line(k), "#Announce "@),
        contains(start_line(k), subject(k)) && contains(end_line(k), subject(k)),
        contains(auto_start_line(k), subject(k)) && contains(auto_end_line(k), subject(k)),
        has_suffix(start_line(k), "บอทหยุดชั่วคราว!"@),
        has_suffix(auto_start_line(k), "บอทหยุดชั่วคราว!"@),
        has_suffix(end_line(k), "สามารถใช้บอทต่อได้!"@),
        has_suffix(auto_end_line(k), "สามารถใช้บอทต่อได้!"@),
        start_line(k) != end_line(k),
        auto_start_line(k) != auto_end_line(k),
{
        reveal_strlit("#Announce บอทกำลังลบชุด/เสื้อผ้า บอทหยุดชั่วคราว!");
        reveal_strlit("#Announce บอทกำลังลบวัสดุก่อสร้าง/เศษไม้ บอทหยุดชั่วคราว!");
        reveal_strlit("#Announce บอทลบชุด/เสื้อผ้าสำเร็จ สามารถใช้บอทต่อได้!");
        reveal_strlit("#Announce บอทลบวัสดุก่อสร้าง/เศษไม้สำเร็จ สามารถใช้บอทต่อได้!");
        reveal_strlit("#Announce บอทกำลังลบชุด/เสื้อผ้าอัตโนมัติ บอทหยุดชั่วคราว!");
        reveal_strlit("#Announce บอทกำลังลบวัสดุก่อสร้าง บอทหยุดชั่วคราว!");
        reveal_strlit("#Announce บอทลบชุด/เสื้อผ้าอัตโนมัติสำเร็จ สามารถใช้บอทต่อได้!");
        reveal_strlit("#Announce บอทลบวัสดุก่อสร้าง สามารถใช้บอทต่อได้!");
        reveal_strlit("#Announce ");
        reveal_strlit("ชุด/เสื้อผ้า");
        reveal_strlit("วัสดุก่อสร้าง");
        reveal_strlit("สามารถใช้บอทต่อได้!");
        reveal_strlit("บอทหยุดชั่วคราว!");
    match k {
        DestroyKind::Clothes => {
            assert("#Announce บอทกำลังลบชุด/เสื้อผ้า บอทหยุดชั่วคราว!"@.subrange(20, 32) =~= "ชุด/เสื้อผ้า"@);
            assert(occurs_at("#Announce บอทกำลังลบชุด/เสื้อผ้า บอทหยุดชั่วคราว!"@, "ชุด/เสื้อผ้า"@, 20));
            assert("#Announce บอทลบชุด/เสื้อผ้าสำเร็จ สามารถใช้บอทต่อได้!"@.subrange(15, 27) =~= "ชุด/เสื้อผ้า"@);
            assert(occurs_at("#Announce บอทลบชุด/เสื้อผ้าสำเร็จ สามารถใช้บอทต่อได้!"@, "ชุด/เสื้อผ้า"@, 15));
            assert("#Announce บอทกำลังลบชุด/เสื้อผ้าอัตโนมัติ บอทหยุดชั่วคราว!"@.subrange(20, 32) =~= "ชุด/เสื้อผ้า"@);
            assert(occurs_at("#Announce บอทกำลังลบชุด/เสื้อผ้าอัตโนมัติ บอทหยุดชั่วคราว!"@, "ชุด/เสื้อผ้า"@, 20));
            assert("#Announce บอทลบชุด/เสื้อผ้าอัตโนมัติสำเร็จ สามารถใช้บอทต่อได้!"@.subrange(15, 27) =~= "ชุด/เสื้อผ้า"@);
            assert(occurs_at("#Announce บอทลบชุด/เสื้อผ้าอัตโนมัติสำเร็จ สามารถใช้บอทต่อได้!"@, "ชุด/เสื้อผ้า"@, 15));
        },
        DestroyKind::Materials => {
            assert("#Announce บอทกำลังลบวัสดุก่อสร้าง/เศษไม้ บอทหยุดชั่วคราว!"@.subrange(20, 33) =~= "วัสดุก่อสร้าง"@);
            assert(occurs_at("#Announce บอทกำลังลบวัสดุก่อสร้าง/เศษไม้ บอทหยุดชั่วคราว!"@, "วัสดุก่อสร้าง"@, 20));
            assert("#Announce บอทลบวัสดุก่อสร้าง/เศษไม้สำเร็จ สามารถใช้บอทต่อได้!"@.subrange(15, 28) =~= "วัสดุก่อสร้าง"@);
            assert(occurs_at("#Announce บอทลบวัสดุก่อสร้าง/เศษไม้สำเร็จ สามารถใช้บอทต่อได้!"@, "วัสดุก่อสร้าง"@, 15));
            assert("#Announce บอทกำลังลบวัสดุก่อสร้าง บอทหยุดชั่วคราว!"@.subrange(20, 33) =~= "วัสดุก่อสร้าง"@);
            assert(occurs_at("#Announce บอทกำลังลบวัสดุก่อสร้าง บอทหยุดชั่วคราว!"@, "วัสดุก่อสร้าง"@, 20));
            assert("#Announce บอทลบวัสดุก่อสร้าง สามารถใช้บอทต่อได้!"@.subrange(15, 28) =~= "วัสดุก่อสร้าง"@);
            assert(occurs_at("#Announce บอทลบวัสดุก่อสร้าง สามารถใช้บอทต่อได้!"@, "วัสดุก่อสร้าง"@, 15));
        },
    }
    assert(start_line(k).skip(start_line(k).len() - 16) =~= "บอทหยุดชั่วคราว!"@);
    assert(auto_start_line(k).skip(auto_start_line(k).len() - 16) =~= "บอทหยุดชั่วคราว!"@);
    assert(end_line(k).skip(end_line(k).len() - 19) =~= "สามารถใช้บอทต่อได้!"@);
    assert(auto_end_line(k).skip(auto_end_line(k).len() - 19) =~= "สามารถใช้บอทต่อได้!"@);
    assert(start_line(k).take(10) =~= "#Announce "@);
    assert(end_line(k).take(10) =~= "#Announce "@);
    assert(auto_start_line(k).take(10) =~= "#Announce "@);
    assert(auto_end_line(k).take(10) =~= "#Announce "@);
    assert(start_line(k)[start_line(k).len() - 2] != end_line(k)[end_line(k).len() - 2]);
    assert(auto_start_line(k)[auto_start_line(k).len() - 2] != auto_end_line(k)[auto_end_line(k).len() - 2]);
}

impl DestroyKind {
    /// The button id that starts this clean-up run.
    pub fn custom_id(&self) -> (id: &'static str)
        ensures
            id@ == destroy_button(*self),
    {
        match self {
            DestroyKind::Clothes => "destroy_type1",
            DestroyKind::Materials => "destroy_type2",
        }
    }

    /// The clean-up run that the button `id` starts, if any.
    pub fn from_custom_id(id: &str) -> (k: Option<DestroyKind>)
        ensures
            k == kind_of_button(id@),
    {
        if equals(id, "destroy_type1") {
            Some(DestroyKind::Clothes)
        } else if equals(id, "destroy_type2") {
            Some(DestroyKind::Materials)
        } else {
            None
        }
    }

    /// The in-game commands of this clean-up run.
    pub fn commands<'a>(&self, config: &'a Config) -> (cmds: &'a Vec<String>)
        ensures
            cmds == match self {
                DestroyKind::Clothes => &config.destroy_commands_type1,
                DestroyKind::Materials => &config.destroy_commands_type2,
            },
    {
        match self {
            DestroyKind::Clothes => &config.destroy_commands_type1,
            DestroyKind::Materials => &config.destroy_commands_type2,
        }
    }

    /// The announcement sent before a clean-up run that a member started.
    pub fn start_announcement(&self) -> (s: &'static str)
        ensures
            s@ == start_line(*self),
    {
        match self {
            DestroyKind::Clothes => "#Announce บอทกำลังลบชุด/เสื้อผ้า บอทหยุดชั่วคราว!",
            DestroyKind::Materials => "#Announce บอทกำลังลบวัสดุก่อสร้าง/เศษไม้ บอทหยุดชั่วคราว!",
        }
    }

    /// The announcement sent after a clean-up run that a member started.
    pub fn end_announcement(&self) -> (s: &'static str)
        ensures
            s@ == end_line(*self),
    {
        match self {
            DestroyKind::Clothes => "#Announce บอทลบชุด/เสื้อผ้าสำเร็จ สามารถใช้บอทต่อได้!",
            DestroyKind::Materials => "#Announce บอทลบวัสดุก่อสร้าง/เศษไม้สำเร็จ สามารถใช้บอทต่อได้!",
        }
    }

    /// The announcement sent before a scheduled clean-up run.
    pub fn auto_start_announcement(&self) -> (s: &'static str)
        ensures
            s@ == auto_start_line(*self),
    {
        match self {
            DestroyKind::Clothes => "#Announce บอทกำลังลบชุด/เสื้อผ้าอัตโนมัติ บอทหยุดชั่วคราว!",
            DestroyKind::Materials => "#Announce บอทกำลังลบวัสดุก่อสร้าง บอทหยุดชั่วคราว!",
        }
    }

    /// The announcement sent after a scheduled clean-up run.
    pub fn auto_end_announcement(&self) -> (s: &'static str)
        ensures
            s@ == auto_end_line(*self),
    {
        match self {
            DestroyKind::Clothes => "#Announce บอทลบชุด/เสื้อผ้าอัตโนมัติสำเร็จ สามารถใช้บอทต่อได้!",
            DestroyKind::Materials => "#Announce บอทลบวัสดุก่อสร้าง สามารถใช้บอทต่อได้!",
        }
    }

    /// The number of seconds between two scheduled runs of this clean-up.
    pub fn auto_period_secs(&self) -> (secs: u64)
        ensures
            secs == auto_period(*self),
    {
        match self {
            DestroyKind::Clothes => 1800,
            DestroyKind::Materials => 7200,
        }
    }
}

/// One operation of a clean-up run, performed in order.
#[derive(Clone, Debug, PartialEq, Eq)]
pub enum CleanupStep {
    /// Wait this many seconds.
    Sleep { secs: u64 },
    /// Take the clean-up lock; purchases are refused while it is held.
    TakeLock,
    /// Type these lines into the game console at the clean-up typing speed.
    Send { lines: Vec<String> },
    /// Give the clean-up lock back.
    ReleaseLock,
}

/// A clean-up operation, with the lines it sends taken as character sequences.
pub enum CleanupOp {
    Sleep(u64),
    TakeLock,
    Send(Seq<Seq<char>>),
    ReleaseLock,
}

impl CleanupStep {
    /// The operation this step performs.
    pub open spec fn op(self) -> CleanupOp {
        match self {
            CleanupStep::Sleep { secs } => CleanupOp::Sleep(secs),
            CleanupStep::TakeLock => CleanupOp::TakeLock,
            CleanupStep::Send { lines } => CleanupOp::Send(lines@.map_values(|l: String| l@)),
            CleanupStep::ReleaseLock => CleanupOp::ReleaseLock,
        }
    }
}

/// The operations of one clean-up run of `k` with the in-game `commands`: a scheduled run first
/// waits out its period; then, holding the lock, the run announces itself, waits a second, types
/// the commands, and announces its end.
pub open spec fn cleanup_script(k: DestroyKind, scheduled: bool, commands: Seq<Seq<char>>) -> Seq<
    CleanupOp,
> {
    let start = if scheduled {
        auto_start_line(k)
    } else {
        start_line(k)
    };
    let end = if scheduled {
        auto_end_line(k)
    } else {
        end_line(k)
    };
    let run = seq![
        CleanupOp::TakeLock,
        CleanupOp::Send(seq![start]),
        CleanupOp::Sleep(1),
        CleanupOp::Send(commands),
        CleanupOp::Send(seq![end]),
        CleanupOp::ReleaseLock,
    ];
    if scheduled {
        seq![CleanupOp::Sleep(auto_period(k))] + run
    } else {
        run
    }
}

/// A line for the game console.
fn one_line(line: &str) -> (v: Vec<String>)
    ensures
        v@.map_values(|l: String| l@) == seq![line@],
{
    let mut v: Vec<String> = Vec::new();
    v.push(line.to_string());
    assert(v@.map_values(|l: String| l@) =~= seq![line@]);
    v
}

impl DestroyKind {
    /// The steps of one run of this clean-up: `scheduled` for the run that the timer starts,
    /// else for the run that a member starts with a button.
    pub fn cleanup_steps(&self, config: &Config, scheduled: bool) -> (steps: Vec<CleanupStep>)
        ensures
            steps@.map_values(|st: CleanupStep| st.op()) == cleanup_script(
                *self,
                scheduled,
                cleanup_commands(config, *self),
            ),
    {
        let mut steps: Vec<CleanupStep> = Vec::new();
        if scheduled {
            steps.push(CleanupStep::Sleep { secs: self.auto_period_secs() });
        }
        let (start, end) = if scheduled {
            (self.auto_start_announcement(), self.auto_end_announcement())
        } else {
            (self.start_announcement(), self.end_announcement())
        };
        steps.push(CleanupStep::TakeLock);
        steps.push(CleanupStep::Send { lines: one_line(start) });
        steps.push(CleanupStep::Sleep { secs: 1 });
        let commands = self.commands(config).clone();
        assert(commands@.map_values(|l: String| l@) =~= cleanup_commands(config, *self));
        steps.push(CleanupStep::Send { lines: commands });
        steps.push(CleanupStep::Send { lines: one_line(end) });
        steps.push(CleanupStep::ReleaseLock);
        assert(steps@.map_values(|st: CleanupStep| st.op()) =~= cleanup_script(
            *self,
            scheduled,
            cleanup_commands(config, *self),
        ));
        steps
    }
}

/// Every clean-up run types its lines while holding the lock: the lock is taken before the first
/// line and given back after the last, and the run ends with the lock given back. Its lines are
/// its start announcement, its commands and its end announcement, in that order, and the only
/// waits are, for a scheduled run, its period before anything else (1800 seconds for clothes,
/// 7200 for building materials, so each scheduled run starts one period after the previous one
/// ended) and one second between the start announcement and the commands.
pub proof fn lemma_cleanup_run(k: DestroyKind, scheduled: bool, commands: Seq<Seq<char>>)
    ensures
        ({
            let ops = cleanup_script(k, scheduled, commands);
            let first = if scheduled {
                1int
            } else {
                0int
            };
            &&& ops.len() == first + 6
            &&& ops[first] is TakeLock
            &&& ops[ops.len() - 1] is ReleaseLock
            &&& forall|i: int|
                0 <= i < ops.len() && (#[trigger] ops[i]) is Send ==> first < i < ops.len() - 1
            &&& forall|i: int|
                0 <= i < ops.len() && (#[trigger] ops[i]) is TakeLock ==> i == first
            &&& forall|i: int|
                0 <= i < ops.len() && (#[trigger] ops[i]) is ReleaseLock ==> i == ops.len() - 1
            &&& ops[first + 1] == CleanupOp::Send(
                seq![if scheduled { auto_start_line(k) } else { start_line(k) }],
            )
            &&& ops[first + 3] == CleanupOp::Send(commands)
            &&& ops[first + 4] == CleanupOp::Send(
                seq![if scheduled { auto_end_line(k) } else { end_line(k) }],
            )
            &&& scheduled ==> ops[0] == CleanupOp::Sleep(auto_period(k))
            &&& forall|i: int|
                0 <= i < ops.len() && (#[trigger] ops[i]) is Sleep ==> (scheduled && i == 0)
                    || (i == first + 2 && ops[i] == CleanupOp::Sleep(1))
        }),
{
}

/// Where a button press goes.
#[derive(Clone, Copy, PartialEq, Eq, Debug)]
pub enum InteractionRoute {
    /// The bot is paused for a server restart; the press is answered with a notice.
    Paused,
    /// The press starts a clean-up run.
    Destroy(DestroyKind),
    /// The press is a purchase.
    Shop,
}

/// Where a press of the button `custom_id` goes while the bot is active or not.
pub fn route_interaction(bot_active: bool, custom_id: &str) -> (r: InteractionRoute)
    ensures
        r == if !bot_active {
            InteractionRoute::Paused
        } else {
            match kind_of_button(custom_id@) {
                Some(k) => InteractionRoute::Destroy(k),
                None => InteractionRoute::Shop,
            }
        },
{
    if !bot_active {
        return InteractionRoute::Paused;
    }
    match DestroyKind::from_custom_id(custom_id) {
        Some(k) => InteractionRoute::Destroy(k),
        None => InteractionRoute::Shop,
    }
}

/// The milliseconds waited after each typed character and after each line: clean-up runs type
/// more slowly.
pub fn typing_delays(command_type: &str) -> (d: (u64, u64))
    ensures
        d == if command_type@ == "destroy"@ {
            (5u64, 3u64)
        } else {
            (3u64, 3u64)
        },
{
    if equals(command_type, "destroy") {
        (5, 3)
    } else {
        (3, 3)
    }
}

/// The lines typed into the game console for `commands`: each command without its surrounding
/// whitespace, and the blank ones left out.
pub open spec fn console_lines(commands: Seq<Seq<char>>) -> Seq<Seq<char>>
    decreases commands.len(),
{
    if commands.len() == 0 {
        seq![]
    } else {
        let prev = console_lines(commands.drop_last());
        let t = trim(commands.last());
        if t.len() == 0 {
            prev
        } else {
            prev.push(t)
        }
    }
}

/// The lines typed into the game console for `commands`.
pub fn game_lines(commands: &[String]) -> (out: Vec<String>)
    ensures
        out@.map_values(|s: String| s@) == console_lines(commands@.map_values(|s: String| s@)),
{
    let ghost cmds = commands@.map_values(|s: String| s@);
    let mut out: Vec<String> = Vec::new();
    let mut i: usize = 0;
    assert(cmds.take(0) =~= Seq::<Seq<char>>::empty());
    assert(out@.map_values(|s: String| s@) =~= Seq::<Seq<char>>::empty());
    while i < commands.len()
        invariant
            cmds == commands@.map_values(|s: String| s@),
            i <= commands@.len(),
            out@.map_values(|s: String| s@) == console_lines(cmds.take(i as int)),
        decreases commands@.len() - i,
    {
        assert(cmds.take(i + 1).drop_last() =~= cmds.take(i as int));
        assert(cmds.take(i + 1).last() == commands@[i as int]@);
        let ghost before = out@.map_values(|s: String| s@);
        let line = trim_str(commands[i].as_str());
        if !line.as_str().is_empty() {
            out.push(line);
            assert(out@.map_values(|s: String| s@) =~= before.push(trim(commands@[i as int]@)));
        }
        i = i + 1;
    }
    assert(cmds.take(commands@.len() as int) =~= cmds);
    out
}

/// Typing two lists of commands one after the other types the lines of the first, then the lines
/// of the second: no line is dropped or merged because of what came before it.
pub proof fn lemma_console_lines_append(a: Seq<Seq<char>>, b: Seq<Seq<char>>)
    ensures
        console_lines(a + b) == console_lines(a) + console_lines(b),
    decreases b.len(),
{
    if b.len() == 0 {
        assert(a + b =~= a);
        assert(console_lines(a) + console_lines(b) =~= console_lines(a));
    } else {
        lemma_console_lines_append(a, b.drop_last());
        assert((a + b).drop_last() =~= a + b.drop_last());
        assert((a + b).last() == b.last());
        let t = trim(b.last());
        if t.len() != 0 {
            assert((console_lines(a) + console_lines(b.drop_last())).push(t) =~= console_lines(a)
                + console_lines(b.drop_last()).push(t));
        }
    }
}

/// A single command is typed as its trimmed text, unless that is blank, in which case nothing
/// is typed.
pub proof fn lemma_console_line_single(c: Seq<char>)
    ensures
        console_lines(seq![c]) == if trim(c).len() == 0 {
            Seq::<Seq<char>>::empty()
        } else {
            seq![trim(c)]
        },
{
    assert(seq![c].drop_last() =~= Seq::<Seq<char>>::empty());
    assert(seq![c].last() == c);
    assert(console_lines(seq![c].drop_last()) =~= Seq::<Seq<char>>::empty());
    assert(Seq::<Seq<char>>::empty().push(trim(c)) =~= seq![trim(c)]);
}

/// Every command whose trimmed text is not blank is typed, once, in order: the lines typed for
/// `a`, then `c`, then `b` are those of `a`, the trimmed `c`, and those of `b`.
pub proof fn lemma_console_lines_keep(a: Seq<Seq<char>>, c: Seq<char>, b: Seq<Seq<char>>)
    requires
        trim(c).len() > 0,
    ensures
        console_lines(a + seq![c] + b) == console_lines(a) + seq![trim(c)] + console_lines(b),
{
    lemma_console_lines_append(a + seq![c], b);
    lemma_console_lines_append(a, seq![c]);
    lemma_console_line_single(c);
}

/// No line typed into the game console is blank.
pub proof fn lemma_console_lines_not_blank(commands: Seq<Seq<char>>)
    ensures
        forall|i: int|
            0 <= i < console_lines(commands).len() ==> #[trigger] console_lines(commands)[i].len()
                > 0,
    decreases commands.len(),
{
    if commands.len() > 0 {
        lemma_console_lines_not_blank(commands.drop_last());
        let prev = console_lines(commands.drop_last());
        let t = trim(commands.last());
        if t.len() != 0 {
            assert forall|i: int|
                0 <= i < console_lines(commands).len() implies #[trigger] console_lines(
                commands,
            )[i].len() > 0 by {
                if i < prev.len() {
                    assert(console_lines(commands)[i] == prev[i]);
                }
            }
        }
    }
}

} // verus!
