use vstd::prelude::*;
use crate::config::{ChnConf, IMPCell, IMPDeviceID, IMPPixelFormat};
use crate::osd::{GRP_NUM, IMPOsdColour, IMPOsdRgnType, IMPPoint, IMPRect, PicSource, RgnData};
use crate::runner::{RunStatus, lemma_all_pass_run, spec_calls_made, spec_guards_met, spec_run};
use crate::encoder::{
    EncoderChnPlan, IMPEncoderRcMode, encoder_chn_num, encoder_chn_num_fits, encoder_chn_plan,
    encoder_plan_fits, spec_encoder_chn_num, spec_encoder_chn_plan,
};
use crate::osd::{
    GrpRgnUpdate, IMPOSDRgnAttr, cover_rgn_attr, font_rgn_attr, grp_rgn_update, logo_rgn_attr,
    rect_rgn_attr, spec_cover_attr, spec_cover_update, spec_font_attr, spec_font_update,
    spec_logo_attr, spec_logo_update, spec_rect_attr, spec_rect_update,
};

verus! {

/// Size, in bytes, of each OSD memory pool.
pub const OSD_POOL_SIZE: i32 = 524288;
/// Contrast, sharpness, saturation and brightness the image is tuned to.
pub const ISP_TUNING_LEVEL: u8 = 128;
/// Which OSD pools are sized: 1 the IPU pool, 2 the ISP pool, 3 both.
pub const GOSD_ENABLE: i32 = 0;
/// 1 feeds encoder channel 0 directly from the frame source.
pub const DIRECT_SWICTH: i32 = 0;

/// A call into the video pipeline. Slots 0 to 3 name the OSD regions in
/// the order timestamp, logo, cover, rectangle; channel slots index the
/// channel table.
#[derive(Clone, Copy, Debug, PartialEq, Eq, Structural)]
pub enum Op {
    OsdSetPoolSize(i32),
    IspSetOsdPoolSize(i32),
    IspOpen,
    IspAddSensor,
    IspEnableSensor,
    SystemInit,
    IspEnableTuning,
    IspSetContrast(u8),
    IspSetSharpness(u8),
    IspSetSaturation(u8),
    IspSetBrightness(u8),
    IspSetRunningModeDay,
    SystemExit,
    IspDisableSensor,
    IspDelSensor,
    IspDisableTuning,
    IspClose,
    FsCreateChn { index: i32, slot: usize },
    FsSetChnAttr { index: i32, slot: usize },
    FsDestroyChn(i32),
    FsEnableChn(i32),
    FsDisableChn(i32),
    FsSetFrameDepth(i32, i32),
    EncCreateGroup(i32),
    EncDestroyGroup(i32),
    EncCreateChn(EncoderChnPlan),
    EncRegisterChn { group: i32, chn_num: i32 },
    EncQuery(i32),
    EncUnRegisterChn(i32),
    EncDestroyChn(i32),
    OsdCreateGroup(i32),
    OsdDestroyGroup(i32),
    OsdAllocHandles,
    OsdFreeHandles,
    OsdCreateRgn(usize),
    OsdRegisterRgn { slot: usize, grp: i32 },
    OsdSetRgnAttr { slot: usize, attr: IMPOSDRgnAttr },
    OsdGetGrpRgnAttr { slot: usize, grp: i32 },
    OsdSetGrpRgnAttr { slot: usize, grp: i32, update: GrpRgnUpdate },
    OsdStart(i32),
    OsdShowRgn { slot: usize, grp: i32, show: i32 },
    OsdUnRegisterRgn { slot: usize, grp: i32 },
    OsdDestroyRgn(usize),
    Bind(IMPCell, IMPCell),
    UnBind(IMPCell, IMPCell),
    /// Allocate the timestamp picture.
    AllocTimestamp,
    /// Start the thread that redraws the timestamp every second.
    StartUpdateThread,
    /// Cancel and join the timestamp thread and free its picture.
    StopUpdateThread,
    /// Capture the streams to files, by waiting on descriptors or by threads.
    Capture { by_fd: bool },
}

/// How a call's result is judged.
#[derive(Clone, Copy, Debug, PartialEq, Eq, Structural)]
pub enum Check {
    /// A negative result fails with that result.
    Negative,
    /// A non-zero result fails with -1.
    NonZero,
    /// The result is not looked at.
    Ignore,
}

/// What a failure does.
#[derive(Clone, Copy, Debug, PartialEq, Eq, Structural)]
pub enum OnFail {
    /// The sequence returns the error code.
    Return,
    /// The program stops: the failing stage's error was unwrapped.
    Abort,
}

/// When a call is made.
#[derive(Clone, Copy, Debug, PartialEq, Eq, Structural)]
pub enum Guard {
    Always,
    /// Only when the last encoder query reported the channel registered.
    IfRegistered,
}

/// One call of a sequence and how its result is treated.
#[derive(Clone, Copy, Debug, PartialEq, Eq, Structural)]
pub struct Step {
    pub op: Op,
    pub check: Check,
    pub on_fail: OnFail,
    pub guard: Guard,
}

/// Whether a result fails its check.
pub open spec fn spec_fails(check: Check, ret: i32) -> bool {
    match check {
        Check::Negative => ret < 0,
        Check::NonZero => ret != 0,
        Check::Ignore => false,
    }
}

/// The error code of a failed check.
pub open spec fn spec_code(check: Check, ret: i32) -> i32 {
    match check {
        Check::NonZero => -1i32,
        _ => ret,
    }
}

/// A call checked for a negative result.
pub open spec fn spec_chk(op: Op) -> Step {
    Step { op, check: Check::Negative, on_fail: OnFail::Return, guard: Guard::Always }
}

/// A call whose result is not checked.
pub open spec fn spec_ign(op: Op) -> Step {
    Step { op, check: Check::Ignore, on_fail: OnFail::Return, guard: Guard::Always }
}

/// A call checked for a non-zero result.
pub open spec fn spec_nz(op: Op) -> Step {
    Step { op, check: Check::NonZero, on_fail: OnFail::Return, guard: Guard::Always }
}

/// A checked call made only for a registered encoder channel.
pub open spec fn spec_if_registered(op: Op) -> Step {
    Step { op, check: Check::Negative, on_fail: OnFail::Return, guard: Guard::IfRegistered }
}

/// Steps whose failure stops the program.
pub open spec fn spec_aborting(steps: Seq<Step>) -> Seq<Step> {
    steps.map_values(|s: Step| Step { on_fail: OnFail::Abort, ..s })
}

/// A vendor call's result checked the pipeline's way: a negative result
/// is the error.
pub fn ret_verify(ret: i32) -> (r: Result<(), i32>)
    ensures
        ret < 0 ==> r == Err::<(), i32>(ret),
        ret >= 0 ==> r is Ok,
{
    if ret < 0 {
        Err(ret)
    } else {
        Ok(())
    }
}

fn chk(op: Op) -> (s: Step)
    ensures
        s == spec_chk(op),
{
    Step { op, check: Check::Negative, on_fail: OnFail::Return, guard: Guard::Always }
}

fn ign(op: Op) -> (s: Step)
    ensures
        s == spec_ign(op),
{
    Step { op, check: Check::Ignore, on_fail: OnFail::Return, guard: Guard::Always }
}

fn nz(op: Op) -> (s: Step)
    ensures
        s == spec_nz(op),
{
    Step { op, check: Check::NonZero, on_fail: OnFail::Return, guard: Guard::Always }
}

fn aborting(steps: Vec<Step>) -> (r: Vec<Step>)
    ensures
        r@ == spec_aborting(steps@),
{
    let mut r: Vec<Step> = Vec::new();
    let mut i: usize = 0;
    while i < steps.len()
        invariant
            i <= steps.len(),
            r@ =~= spec_aborting(steps@.take(i as int)),
        decreases steps.len() - i,
    {
        let s = steps[i];
        r.push(Step { on_fail: OnFail::Abort, ..s });
        i = i + 1;
    }
    assert(steps@.take(steps.len() as int) =~= steps@);
    r
}

/// The pool sizing calls: IPU pool only (1), ISP pool only (2), or both
/// (3 and anything else); results are not checked.
pub open spec fn spec_pool_steps(gosd: i32) -> Seq<Step> {
    if gosd == 1 {
        seq![spec_ign(Op::OsdSetPoolSize(OSD_POOL_SIZE))]
    } else if gosd == 2 {
        seq![spec_ign(Op::IspSetOsdPoolSize(OSD_POOL_SIZE))]
    } else {
        seq![spec_ign(Op::OsdSetPoolSize(OSD_POOL_SIZE)), spec_ign(Op::IspSetOsdPoolSize(OSD_POOL_SIZE))]
    }
}

/// System start-up: size the OSD pools, open the ISP, add and enable the
/// sensor, start the system, enable tuning, set the four tuning levels to
/// 128 (unchecked) and select the day running mode.
pub open spec fn spec_system_init_steps(gosd: i32) -> Seq<Step> {
    spec_pool_steps(gosd) + seq![
        spec_chk(Op::IspOpen),
        spec_chk(Op::IspAddSensor),
        spec_chk(Op::IspEnableSensor),
        spec_chk(Op::SystemInit),
        spec_chk(Op::IspEnableTuning),
        spec_ign(Op::IspSetContrast(ISP_TUNING_LEVEL)),
        spec_ign(Op::IspSetSharpness(ISP_TUNING_LEVEL)),
        spec_ign(Op::IspSetSaturation(ISP_TUNING_LEVEL)),
        spec_ign(Op::IspSetBrightness(ISP_TUNING_LEVEL)),
        spec_chk(Op::IspSetRunningModeDay),
    ]
}

/// The calls of system start-up.
pub fn sample_system_init(gosd: i32) -> (p: Vec<Step>)
    ensures
        p@ == spec_system_init_steps(gosd),
{
    let mut p: Vec<Step> = Vec::new();
    if gosd == 1 {
        p.push(ign(Op::OsdSetPoolSize(OSD_POOL_SIZE)));
    } else if gosd == 2 {
        p.push(ign(Op::IspSetOsdPoolSize(OSD_POOL_SIZE)));
    } else {
        p.push(ign(Op::OsdSetPoolSize(OSD_POOL_SIZE)));
        p.push(ign(Op::IspSetOsdPoolSize(OSD_POOL_SIZE)));
    }
    assert(p@ =~= spec_pool_steps(gosd));
    let ghost pool = p@;
    p.push(chk(Op::IspOpen));
    p.push(chk(Op::IspAddSensor));
    p.push(chk(Op::IspEnableSensor));
    p.push(chk(Op::SystemInit));
    p.push(chk(Op::IspEnableTuning));
    p.push(ign(Op::IspSetContrast(ISP_TUNING_LEVEL)));
    p.push(ign(Op::IspSetSharpness(ISP_TUNING_LEVEL)));
    p.push(ign(Op::IspSetSaturation(ISP_TUNING_LEVEL)));
    p.push(ign(Op::IspSetBrightness(ISP_TUNING_LEVEL)));
    p.push(chk(Op::IspSetRunningModeDay));
    assert(p@ =~= spec_system_init_steps(gosd));
    p
}

/// System shut-down: stop the system (unchecked), disable and remove the
/// sensor, disable tuning, and close the ISP, which fails with -1 on any
/// non-zero result.
pub open spec fn spec_system_exit_steps() -> Seq<Step> {
    seq![
        spec_ign(Op::SystemExit),
        spec_chk(Op::IspDisableSensor),
        spec_chk(Op::IspDelSensor),
        spec_chk(Op::IspDisableTuning),
        spec_nz(Op::IspClose),
    ]
}

/// The calls of system shut-down.
pub fn sample_system_exit() -> (p: Vec<Step>)
    ensures
        p@ == spec_system_exit_steps(),
{
    let mut p: Vec<Step> = Vec::new();
    p.push(ign(Op::SystemExit));
    p.push(chk(Op::IspDisableSensor));
    p.push(chk(Op::IspDelSensor));
    p.push(chk(Op::IspDisableTuning));
    p.push(nz(Op::IspClose));
    assert(p@ =~= spec_system_exit_steps());
    p
}

/// The stages that act on each enabled channel of the table.
#[derive(Clone, Copy, Debug, PartialEq, Eq, Structural)]
pub enum ChnPhase {
    FsInit,
    FsExit,
    FsStreamOn,
    FsStreamOff,
    EncGroupCreate,
    EncGroupDestroy,
    EncInit { method: IMPEncoderRcMode, direct_switch: i32 },
    EncExit,
}

/// The calls of a stage for the enabled channel in table slot `slot`:
/// frame-source channels are created and given their attributes, or
/// destroyed, enabled or disabled by index; encoder groups are created or
/// destroyed by index; an encoder channel is created with its attributes
/// and registered to the group of the same index; on exit an encoder
/// channel is queried and, when registered, unregistered and destroyed.
pub open spec fn spec_phase_steps(ph: ChnPhase, slot: int, c: ChnConf) -> Seq<Step> {
    match ph {
        ChnPhase::FsInit => seq![
            spec_chk(Op::FsCreateChn { index: c.index, slot: slot as usize }),
            spec_chk(Op::FsSetChnAttr { index: c.index, slot: slot as usize }),
        ],
        ChnPhase::FsExit => seq![spec_chk(Op::FsDestroyChn(c.index))],
        ChnPhase::FsStreamOn => seq![spec_chk(Op::FsEnableChn(c.index))],
        ChnPhase::FsStreamOff => seq![spec_chk(Op::FsDisableChn(c.index))],
        ChnPhase::EncGroupCreate => seq![spec_chk(Op::EncCreateGroup(c.index))],
        ChnPhase::EncGroupDestroy => seq![spec_chk(Op::EncDestroyGroup(c.index))],
        ChnPhase::EncInit { method, direct_switch } => {
            let plan = spec_encoder_chn_plan(c, method, direct_switch);
            seq![
                spec_chk(Op::EncCreateChn(plan)),
                spec_chk(Op::EncRegisterChn { group: c.index, chn_num: plan.chn_num }),
            ]
        },
        ChnPhase::EncExit => {
            let n = spec_encoder_chn_num(c) as i32;
            seq![
                spec_chk(Op::EncQuery(n)),
                spec_if_registered(Op::EncUnRegisterChn(n)),
                spec_if_registered(Op::EncDestroyChn(n)),
            ]
        },
    }
}

/// A channel that a stage can act on without overflow.
pub open spec fn spec_phase_fits(ph: ChnPhase, c: ChnConf) -> bool {
    match ph {
        ChnPhase::EncInit { method, direct_switch } => encoder_plan_fits(c, method),
        ChnPhase::EncExit => encoder_chn_num_fits(c),
        _ => true,
    }
}

/// The calls of a stage over the enabled channels of a table, in table order.
pub open spec fn spec_phase_plan(ph: ChnPhase, chns: Seq<ChnConf>) -> Seq<Step>
    decreases chns.len(),
{
    if chns.len() == 0 {
        Seq::empty()
    } else {
        let rest = spec_phase_plan(ph, chns.drop_last());
        if chns.last().enable {
            rest + spec_phase_steps(ph, chns.len() - 1, chns.last())
        } else {
            rest
        }
    }
}

fn phase_steps(ph: ChnPhase, slot: usize, c: &ChnConf) -> (s: Vec<Step>)
    requires
        spec_phase_fits(ph, *c),
    ensures
        s@ == spec_phase_steps(ph, slot as int, *c),
{
    let mut s: Vec<Step> = Vec::new();
    match ph {
        ChnPhase::FsInit => {
            s.push(chk(Op::FsCreateChn { index: c.index, slot }));
            s.push(chk(Op::FsSetChnAttr { index: c.index, slot }));
        },
        ChnPhase::FsExit => {
            s.push(chk(Op::FsDestroyChn(c.index)));
        },
        ChnPhase::FsStreamOn => {
            s.push(chk(Op::FsEnableChn(c.index)));
        },
        ChnPhase::FsStreamOff => {
            s.push(chk(Op::FsDisableChn(c.index)));
        },
        ChnPhase::EncGroupCreate => {
            s.push(chk(Op::EncCreateGroup(c.index)));
        },
        ChnPhase::EncGroupDestroy => {
            s.push(chk(Op::EncDestroyGroup(c.index)));
        },
        ChnPhase::EncInit { method, direct_switch } => {
            let plan = encoder_chn_plan(c, method, direct_switch);
            s.push(chk(Op::EncCreateChn(plan)));
            s.push(chk(Op::EncRegisterChn { group: c.index, chn_num: plan.chn_num }));
        },
        ChnPhase::EncExit => {
            let n = encoder_chn_num(c);
            s.push(chk(Op::EncQuery(n)));
            s.push(Step { op: Op::EncUnRegisterChn(n), check: Check::Negative, on_fail: OnFail::Return, guard: Guard::IfRegistered });
            s.push(Step { op: Op::EncDestroyChn(n), check: Check::Negative, on_fail: OnFail::Return, guard: Guard::IfRegistered });
        },
    }
    assert(s@ =~= spec_phase_steps(ph, slot as int, *c));
    s
}

/// The calls of a stage over the enabled channels of a table.
pub fn phase_plan(ph: ChnPhase, chns: &Vec<ChnConf>) -> (p: Vec<Step>)
    requires
        forall|i: int| 0 <= i < chns.len() && (#[trigger] chns@[i]).enable ==> spec_phase_fits(ph, chns@[i]),
    ensures
        p@ == spec_phase_plan(ph, chns@),
{
    let mut p: Vec<Step> = Vec::new();
    let mut i: usize = 0;
    while i < chns.len()
        invariant
            i <= chns.len(),
            forall|k: int| 0 <= k < chns.len() && (#[trigger] chns@[k]).enable ==> spec_phase_fits(ph, chns@[k]),
            p@ == spec_phase_plan(ph, chns@.take(i as int)),
        decreases chns.len() - i,
    {
        assert(chns@.take(i + 1).drop_last() =~= chns@.take(i as int));
        assert(chns@.take(i + 1).last() == chns@[i as int]);
        let c = chns[i];
        if c.enable {
            let mut s = phase_steps(ph, i, &c);
            p.append(&mut s);
        }
        i = i + 1;
    }
    assert(chns@.take(chns.len() as int) =~= chns@);
    p
}

/// Frame-source start-up: each enabled channel is created and given its
/// attributes.
pub fn sample_framesource_init(chns: &Vec<ChnConf>) -> (p: Vec<Step>)
    ensures
        p@ == spec_phase_plan(ChnPhase::FsInit, chns@),
{
    phase_plan(ChnPhase::FsInit, chns)
}

/// Frame-source shut-down: each enabled channel is destroyed.
pub fn sample_framesource_exit(chns: &Vec<ChnConf>) -> (p: Vec<Step>)
    ensures
        p@ == spec_phase_plan(ChnPhase::FsExit, chns@),
{
    phase_plan(ChnPhase::FsExit, chns)
}

/// Streaming on: each enabled frame-source channel is enabled.
pub fn sample_framesource_streamon(chns: &Vec<ChnConf>) -> (p: Vec<Step>)
    ensures
        p@ == spec_phase_plan(ChnPhase::FsStreamOn, chns@),
{
    phase_plan(ChnPhase::FsStreamOn, chns)
}

/// Streaming off: each enabled frame-source channel is disabled.
pub fn sample_framesource_streamoff(chns: &Vec<ChnConf>) -> (p: Vec<Step>)
    ensures
        p@ == spec_phase_plan(ChnPhase::FsStreamOff, chns@),
{
    phase_plan(ChnPhase::FsStreamOff, chns)
}

/// Encoder start-up: each enabled channel's encoder channel is created
/// with its attributes and registered to the group of its index.
pub fn sample_encoder_init(chns: &Vec<ChnConf>, method: IMPEncoderRcMode, direct_switch: i32) -> (p: Vec<Step>)
    requires
        forall|i: int| 0 <= i < chns.len() && (#[trigger] chns@[i]).enable ==> encoder_plan_fits(chns@[i], method),
    ensures
        p@ == spec_phase_plan(ChnPhase::EncInit { method, direct_switch }, chns@),
{
    phase_plan(ChnPhase::EncInit { method, direct_switch }, chns)
}

/// Encoder shut-down: each enabled channel's encoder channel is queried
/// and, when registered, unregistered and destroyed.
pub fn sample_encoder_exit(chns: &Vec<ChnConf>) -> (p: Vec<Step>)
    requires
        forall|i: int| 0 <= i < chns.len() && (#[trigger] chns@[i]).enable ==> encoder_chn_num_fits(chns@[i]),
    ensures
        p@ == spec_phase_plan(ChnPhase::EncExit, chns@),
{
    phase_plan(ChnPhase::EncExit, chns)
}

/// The indices of the enabled channels, in table order.
pub open spec fn spec_enabled_indices(chns: Seq<ChnConf>) -> Seq<i32>
    decreases chns.len(),
{
    if chns.len() == 0 {
        Seq::empty()
    } else {
        let rest = spec_enabled_indices(chns.drop_last());
        if chns.last().enable { rest.push(chns.last().index) } else { rest }
    }
}

/// Streaming stops on exactly the channels, and in the order, that it
/// started on; the frame-source channels that shut-down destroys are
/// those that start-up created; the encoder groups destroyed are those
/// created. Each of these stages makes one call per enabled channel,
/// naming that channel's index (two calls for frame-source start-up).
pub proof fn lemma_teardown_mirrors_setup(chns: Seq<ChnConf>)
    ensures
        ({
            let idx = spec_enabled_indices(chns);
            let on = spec_phase_plan(ChnPhase::FsStreamOn, chns);
            let off = spec_phase_plan(ChnPhase::FsStreamOff, chns);
            let init = spec_phase_plan(ChnPhase::FsInit, chns);
            let exit = spec_phase_plan(ChnPhase::FsExit, chns);
            let gc = spec_phase_plan(ChnPhase::EncGroupCreate, chns);
            let gd = spec_phase_plan(ChnPhase::EncGroupDestroy, chns);
            &&& on.len() == idx.len() && off.len() == idx.len()
            &&& exit.len() == idx.len() && init.len() == 2 * idx.len()
            &&& gc.len() == idx.len() && gd.len() == idx.len()
            &&& forall|k: int| 0 <= k < idx.len() ==> {
                &&& (#[trigger] on[k]).op == Op::FsEnableChn(idx[k])
                &&& off[k].op == Op::FsDisableChn(idx[k])
                &&& exit[k].op == Op::FsDestroyChn(idx[k])
                &&& init[2 * k].op matches Op::FsCreateChn { index, .. } && index == idx[k]
                &&& init[2 * k + 1].op matches Op::FsSetChnAttr { index, .. } && index == idx[k]
                &&& gc[k].op == Op::EncCreateGroup(idx[k])
                &&& gd[k].op == Op::EncDestroyGroup(idx[k])
            }
        }),
    decreases chns.len(),
{
    if chns.len() > 0 {
        lemma_teardown_mirrors_setup(chns.drop_last());
        let idx0 = spec_enabled_indices(chns.drop_last());
        let idx = spec_enabled_indices(chns);
        let on = spec_phase_plan(ChnPhase::FsStreamOn, chns);
        let init = spec_phase_plan(ChnPhase::FsInit, chns);
        let init0 = spec_phase_plan(ChnPhase::FsInit, chns.drop_last());
        if chns.last().enable {
            assert forall|k: int| 0 <= k < idx.len() implies {
                &&& (#[trigger] on[k]).op == Op::FsEnableChn(idx[k])
                &&& spec_phase_plan(ChnPhase::FsStreamOff, chns)[k].op == Op::FsDisableChn(idx[k])
                &&& spec_phase_plan(ChnPhase::FsExit, chns)[k].op == Op::FsDestroyChn(idx[k])
                &&& init[2 * k].op matches Op::FsCreateChn { index, .. } && index == idx[k]
                &&& init[2 * k + 1].op matches Op::FsSetChnAttr { index, .. } && index == idx[k]
                &&& spec_phase_plan(ChnPhase::EncGroupCreate, chns)[k].op == Op::EncCreateGroup(idx[k])
                &&& spec_phase_plan(ChnPhase::EncGroupDestroy, chns)[k].op == Op::EncDestroyGroup(idx[k])
            } by {
                if k < idx0.len() {
                    assert(idx[k] == idx0[k]);
                    assert(init[2 * k] == init0[2 * k]);
                    assert(init[2 * k + 1] == init0[2 * k + 1]);
                    assert(spec_phase_plan(ChnPhase::FsStreamOn, chns.drop_last())[k].op == Op::FsEnableChn(idx0[k]));
                } else {
                    assert(k == idx0.len());
                }
            }
        }
    }
}

/// The encoder channel numbers of the enabled channels, in table order.
pub open spec fn spec_enabled_chn_nums(chns: Seq<ChnConf>) -> Seq<i32>
    decreases chns.len(),
{
    if chns.len() == 0 {
        Seq::empty()
    } else {
        let rest = spec_enabled_chn_nums(chns.drop_last());
        if chns.last().enable { rest.push(spec_encoder_chn_num(chns.last()) as i32) } else { rest }
    }
}

proof fn lemma_encoder_phase_shape(chns: Seq<ChnConf>, method: IMPEncoderRcMode, direct_switch: i32)
    ensures
        ({
            let nums = spec_enabled_chn_nums(chns);
            let idx = spec_enabled_indices(chns);
            let init = spec_phase_plan(ChnPhase::EncInit { method, direct_switch }, chns);
            let exit = spec_phase_plan(ChnPhase::EncExit, chns);
            &&& idx.len() == nums.len()
            &&& init.len() == 2 * nums.len()
            &&& exit.len() == 3 * nums.len()
            &&& forall|k: int| 0 <= k < nums.len() ==> {
                &&& spec_created_chn(init[2 * k].op) == Some(#[trigger] nums[k])
                &&& init[2 * k + 1].op == Op::EncRegisterChn { group: idx[k], chn_num: nums[k] }
                &&& exit[3 * k] == spec_chk(Op::EncQuery(nums[k]))
                &&& exit[3 * k + 1] == spec_if_registered(Op::EncUnRegisterChn(nums[k]))
                &&& exit[3 * k + 2] == spec_if_registered(Op::EncDestroyChn(nums[k]))
            }
        }),
    decreases chns.len(),
{
    if chns.len() > 0 {
        let c0 = chns.drop_last();
        lemma_encoder_phase_shape(c0, method, direct_switch);
        let nums0 = spec_enabled_chn_nums(c0);
        let idx0 = spec_enabled_indices(c0);
        let init0 = spec_phase_plan(ChnPhase::EncInit { method, direct_switch }, c0);
        let exit0 = spec_phase_plan(ChnPhase::EncExit, c0);
        let nums = spec_enabled_chn_nums(chns);
        let idx = spec_enabled_indices(chns);
        let init = spec_phase_plan(ChnPhase::EncInit { method, direct_switch }, chns);
        let exit = spec_phase_plan(ChnPhase::EncExit, chns);
        if chns.last().enable {
            assert forall|k: int| 0 <= k < nums.len() implies {
                &&& spec_created_chn(init[2 * k].op) == Some(#[trigger] nums[k])
                &&& init[2 * k + 1].op == Op::EncRegisterChn { group: idx[k], chn_num: nums[k] }
                &&& exit[3 * k] == spec_chk(Op::EncQuery(nums[k]))
                &&& exit[3 * k + 1] == spec_if_registered(Op::EncUnRegisterChn(nums[k]))
                &&& exit[3 * k + 2] == spec_if_registered(Op::EncDestroyChn(nums[k]))
            } by {
                if k < nums0.len() {
                    assert(nums[k] == nums0[k]);
                    assert(idx[k] == idx0[k]);
                    assert(init[2 * k] == init0[2 * k]);
                    assert(init[2 * k + 1] == init0[2 * k + 1]);
                    assert(exit[3 * k] == exit0[3 * k]);
                    assert(exit[3 * k + 1] == exit0[3 * k + 1]);
                    assert(exit[3 * k + 2] == exit0[3 * k + 2]);
                } else {
                    assert(k == nums0.len());
                }
            }
        }
    }
}

/// The encoder channel number a call creates, if it creates one.
pub open spec fn spec_created_chn(op: Op) -> Option<i32> {
    match op {
        Op::EncCreateChn(plan) => Some(plan.chn_num),
        _ => None,
    }
}

/// Each channel number queried, unregistered and destroyed in turn.
pub open spec fn spec_exit_calls(nums: Seq<i32>) -> Seq<Op> {
    Seq::new(
        (3 * nums.len()) as nat,
        |m: int|
            if m % 3 == 0 {
                Op::EncQuery(nums[m / 3])
            } else if m % 3 == 1 {
                Op::EncUnRegisterChn(nums[m / 3])
            } else {
                Op::EncDestroyChn(nums[m / 3])
            },
    )
}

proof fn lemma_exit_guards_met(exit: Seq<Step>, nums: Seq<i32>, m: int, registered: bool)
    requires
        exit.len() == 3 * nums.len(),
        0 <= m <= nums.len(),
        forall|k: int| 0 <= k < nums.len() ==> {
            &&& exit[3 * k] == spec_chk(Op::EncQuery(#[trigger] nums[k]))
            &&& exit[3 * k + 1] == spec_if_registered(Op::EncUnRegisterChn(nums[k]))
            &&& exit[3 * k + 2] == spec_if_registered(Op::EncDestroyChn(nums[k]))
        },
    ensures
        spec_guards_met(exit, 3 * m, registered),
    decreases nums.len() - m,
{
    if m < nums.len() {
        lemma_exit_guards_met(exit, nums, m + 1, true);
        let n = nums[m];
        assert(exit[3 * m + 2] == spec_if_registered(Op::EncDestroyChn(n)));
        assert(spec_guards_met(exit, 3 * m + 2, true));
        assert(spec_guards_met(exit, 3 * m + 1, true));
        assert(spec_guards_met(exit, 3 * m, registered));
    }
}

/// Encoder shut-down undoes exactly what encoder start-up did. Start-up
/// creates (and registers) one encoder channel per enabled channel, in
/// table order, numbered 3 + index for JPEG and index otherwise. When
/// every later call returns a non-negative result and each query finds
/// its channel registered, shut-down ends done having queried,
/// unregistered and destroyed exactly those channel numbers, each in turn
/// and in the same order.
pub proof fn lemma_encoder_exit_undoes_init(
    chns: Seq<ChnConf>,
    method: IMPEncoderRcMode,
    direct_switch: i32,
    outs: Seq<(i32, bool)>,
)
    requires
        outs.len() >= 3 * spec_enabled_chn_nums(chns).len(),
        forall|k: int| 0 <= k < outs.len() ==> (#[trigger] outs[k]).0 >= 0 && outs[k].1,
    ensures
        spec_phase_plan(ChnPhase::EncInit { method, direct_switch }, chns).len() == 2 * spec_enabled_chn_nums(
            chns,
        ).len(),
        forall|k: int|
            0 <= k < spec_enabled_chn_nums(chns).len() ==> spec_created_chn(spec_phase_plan(
                ChnPhase::EncInit { method, direct_switch },
                chns,
            )[2 * k].op) == Some(#[trigger] spec_enabled_chn_nums(chns)[k]),
        spec_run(spec_phase_plan(ChnPhase::EncExit, chns), 0, false, outs) == RunStatus::Done,
        spec_calls_made(spec_phase_plan(ChnPhase::EncExit, chns), 0, false, outs) == spec_exit_calls(
            spec_enabled_chn_nums(chns),
        ),
{
    lemma_encoder_phase_shape(chns, method, direct_switch);
    let nums = spec_enabled_chn_nums(chns);
    let exit = spec_phase_plan(ChnPhase::EncExit, chns);
    lemma_exit_guards_met(exit, nums, 0, false);
    assert forall|m: int| 0 <= m < exit.len() - 0 implies !spec_fails(exit[0 + m].check, (#[trigger] outs[m]).0)
        && outs[m].1 by {
        let k = m / 3;
        assert(m == 3 * k + m % 3);
        assert(0 <= k < nums.len() && nums[k] == nums[k]);
        if m % 3 == 0 {
            assert(exit[0 + m] == spec_chk(Op::EncQuery(nums[k])));
        } else if m % 3 == 1 {
            assert(exit[0 + m] == spec_if_registered(Op::EncUnRegisterChn(nums[k])));
        } else {
            assert(exit[0 + m] == spec_if_registered(Op::EncDestroyChn(nums[k])));
        }
        assert(exit[0 + m].check == Check::Negative);
        assert(m < outs.len());
        assert(outs[m].0 >= 0 && outs[m].1);
    }
    lemma_all_pass_run(exit, 0, false, outs);
    let expected = spec_exit_calls(nums);
    let made = exit.subrange(0, exit.len() as int).map_values(|s: Step| s.op);
    assert forall|m: int| 0 <= m < made.len() implies made[m] == expected[m] by {
        let k = m / 3;
        assert(m == 3 * k + m % 3);
        assert(0 <= k < nums.len() && nums[k] == nums[k]);
    }
    assert(made =~= expected);
}

/// The OSD regions' attributes, in slot order, for a `w` x `h` picture.
pub open spec fn spec_rgn_attr(slot: int, w: i32, h: i32) -> IMPOSDRgnAttr {
    if slot == 0 {
        spec_font_attr()
    } else if slot == 1 {
        spec_logo_attr(w, h)
    } else if slot == 2 {
        spec_cover_attr(w, h)
    } else {
        spec_rect_attr()
    }
}

/// The OSD regions' group-attribute changes, in slot order.
pub open spec fn spec_rgn_update(slot: int) -> GrpRgnUpdate {
    if slot == 0 {
        spec_font_update()
    } else if slot == 1 {
        spec_logo_update()
    } else if slot == 2 {
        spec_cover_update()
    } else {
        spec_rect_update()
    }
}

/// Setting up one region: its attributes, then reading, changing and
/// writing back its group attributes.
pub open spec fn spec_rgn_setup(slot: int, grp: i32, w: i32, h: i32) -> Seq<Step> {
    seq![
        spec_chk(Op::OsdSetRgnAttr { slot: slot as usize, attr: spec_rgn_attr(slot, w, h) }),
        spec_chk(Op::OsdGetGrpRgnAttr { slot: slot as usize, grp }),
        spec_chk(Op::OsdSetGrpRgnAttr { slot: slot as usize, grp, update: spec_rgn_update(slot) }),
    ]
}

/// OSD start-up on group `grp`: allocate the handle table, create the
/// four regions (only the first creation is checked), register them on
/// the group, set each one up, and start the group.
pub open spec fn spec_osd_init_steps(grp: i32, w: i32, h: i32) -> Seq<Step> {
    seq![
        spec_chk(Op::OsdAllocHandles),
        spec_chk(Op::OsdCreateRgn(0)),
        spec_ign(Op::OsdCreateRgn(1)),
        spec_ign(Op::OsdCreateRgn(2)),
        spec_ign(Op::OsdCreateRgn(3)),
        spec_chk(Op::OsdRegisterRgn { slot: 0, grp }),
        spec_chk(Op::OsdRegisterRgn { slot: 1, grp }),
        spec_chk(Op::OsdRegisterRgn { slot: 2, grp }),
        spec_chk(Op::OsdRegisterRgn { slot: 3, grp }),
    ] + spec_rgn_setup(0, grp, w, h) + spec_rgn_setup(1, grp, w, h) + spec_rgn_setup(2, grp, w, h)
        + spec_rgn_setup(3, grp, w, h) + seq![spec_chk(Op::OsdStart(grp))]
}

fn rgn_setup(slot: usize, grp: i32, w: i32, h: i32, p: &mut Vec<Step>)
    requires
        slot < 4,
        0 <= w,
        0 <= h,
    ensures
        final(p)@ == old(p)@ + spec_rgn_setup(slot as int, grp, w, h),
{
    let attr = if slot == 0 {
        font_rgn_attr()
    } else if slot == 1 {
        logo_rgn_attr(w, h)
    } else if slot == 2 {
        cover_rgn_attr(w, h)
    } else {
        rect_rgn_attr()
    };
    let ghost p0 = p@;
    p.push(chk(Op::OsdSetRgnAttr { slot, attr }));
    p.push(chk(Op::OsdGetGrpRgnAttr { slot, grp }));
    p.push(chk(Op::OsdSetGrpRgnAttr { slot, grp, update: grp_rgn_update(slot) }));
    assert(p@ =~= p0 + spec_rgn_setup(slot as int, grp, w, h));
}

/// The calls of OSD start-up for a `w` x `h` picture.
pub fn sample_osd_init(grp: i32, w: i32, h: i32) -> (p: Vec<Step>)
    requires
        0 <= w,
        0 <= h,
    ensures
        p@ == spec_osd_init_steps(grp, w, h),
{
    let mut p: Vec<Step> = Vec::new();
    p.push(chk(Op::OsdAllocHandles));
    p.push(chk(Op::OsdCreateRgn(0)));
    p.push(ign(Op::OsdCreateRgn(1)));
    p.push(ign(Op::OsdCreateRgn(2)));
    p.push(ign(Op::OsdCreateRgn(3)));
    p.push(chk(Op::OsdRegisterRgn { slot: 0, grp }));
    p.push(chk(Op::OsdRegisterRgn { slot: 1, grp }));
    p.push(chk(Op::OsdRegisterRgn { slot: 2, grp }));
    p.push(chk(Op::OsdRegisterRgn { slot: 3, grp }));
    let ghost head = p@;
    rgn_setup(0, grp, w, h, &mut p);
    rgn_setup(1, grp, w, h, &mut p);
    rgn_setup(2, grp, w, h, &mut p);
    rgn_setup(3, grp, w, h, &mut p);
    p.push(chk(Op::OsdStart(grp)));
    assert(p@ =~= spec_osd_init_steps(grp, w, h));
    p
}

/// OSD shut-down on group `grp`: hide, unregister and destroy the four
/// regions (results not checked), destroy the group, free the handle table.
pub open spec fn spec_osd_exit_steps(grp: i32) -> Seq<Step> {
    seq![
        spec_ign(Op::OsdShowRgn { slot: 0, grp, show: 0 }),
        spec_ign(Op::OsdShowRgn { slot: 1, grp, show: 0 }),
        spec_ign(Op::OsdShowRgn { slot: 2, grp, show: 0 }),
        spec_ign(Op::OsdShowRgn { slot: 3, grp, show: 0 }),
        spec_ign(Op::OsdUnRegisterRgn { slot: 0, grp }),
        spec_ign(Op::OsdUnRegisterRgn { slot: 1, grp }),
        spec_ign(Op::OsdUnRegisterRgn { slot: 2, grp }),
        spec_ign(Op::OsdUnRegisterRgn { slot: 3, grp }),
        spec_ign(Op::OsdDestroyRgn(0)),
        spec_ign(Op::OsdDestroyRgn(1)),
        spec_ign(Op::OsdDestroyRgn(2)),
        spec_ign(Op::OsdDestroyRgn(3)),
        spec_chk(Op::OsdDestroyGroup(grp)),
        spec_ign(Op::OsdFreeHandles),
    ]
}

/// The region and attributes a call sets, if it sets a region's attributes.
pub open spec fn spec_set_attr(op: Op) -> Option<(usize, IMPOSDRgnAttr)> {
    match op {
        Op::OsdSetRgnAttr { slot, attr } => Some((slot, attr)),
        _ => None,
    }
}

/// What OSD start-up on a `w` x `h` picture gives each region: region 0
/// (timestamp) an empty BGRA picture over (10, 10)-(329, 43); region 1 the
/// BGRA logo picture over the bottom-right 100 x 100 pixels; region 2 a
/// black cover from 100 pixels up-left of the centre, half the picture
/// plus 50 pixels wide and high; region 3 a green rectangle 5 pixels wide
/// over (300, 300)-(899, 599). Each of the four regions gets its
/// attributes set exactly once.
pub proof fn lemma_osd_regions(grp: i32, w: i32, h: i32)
    requires
        0 <= w,
        0 <= h,
    ensures
        forall|k: int|
            0 <= k < spec_osd_init_steps(grp, w, h).len() && (#[trigger] spec_set_attr(
                spec_osd_init_steps(grp, w, h)[k].op,
            )) is Some ==> {
                let (slot, attr) = spec_set_attr(spec_osd_init_steps(grp, w, h)[k].op).unwrap();
                &&& slot < 4
                &&& slot == 0 ==> {
                    &&& attr.type_ == IMPOsdRgnType::OSD_REG_PIC
                    &&& attr.fmt == IMPPixelFormat::PIX_FMT_BGRA
                    &&& attr.data == RgnData::Pic { source: PicSource::NoPicture }
                    &&& attr.rect == (IMPRect { p0: IMPPoint { x: 10, y: 10 }, p1: IMPPoint { x: 329, y: 43 } })
                }
                &&& slot == 1 ==> {
                    &&& attr.type_ == IMPOsdRgnType::OSD_REG_PIC
                    &&& attr.fmt == IMPPixelFormat::PIX_FMT_BGRA
                    &&& attr.data == RgnData::Pic { source: PicSource::Logo }
                    &&& attr.rect == (IMPRect {
                        p0: IMPPoint { x: (w - 100) as i32, y: (h - 100) as i32 },
                        p1: IMPPoint { x: (w - 1) as i32, y: (h - 1) as i32 },
                    })
                }
                &&& slot == 2 ==> {
                    &&& attr.type_ == IMPOsdRgnType::OSD_REG_COVER
                    &&& attr.data == RgnData::Cover { color: IMPOsdColour::OSD_BLACK }
                    &&& attr.rect == (IMPRect {
                        p0: IMPPoint { x: (w / 2 - 100) as i32, y: (h / 2 - 100) as i32 },
                        p1: IMPPoint { x: (w / 2 - 100 + w / 2 + 49) as i32, y: (h / 2 - 100 + h / 2 + 49) as i32 },
                    })
                }
                &&& slot == 3 ==> {
                    &&& attr.type_ == IMPOsdRgnType::OSD_REG_RECT
                    &&& attr.data == RgnData::LineRect { color: IMPOsdColour::OSD_GREEN, linewidth: 5 }
                    &&& attr.rect == (IMPRect { p0: IMPPoint { x: 300, y: 300 }, p1: IMPPoint { x: 899, y: 599 } })
                }
            },
        forall|k1: int, k2: int|
            0 <= k1 < spec_osd_init_steps(grp, w, h).len() && 0 <= k2 < spec_osd_init_steps(grp, w, h).len()
                && (#[trigger] spec_set_attr(spec_osd_init_steps(grp, w, h)[k1].op)) is Some
                && (#[trigger] spec_set_attr(spec_osd_init_steps(grp, w, h)[k2].op)) is Some
                && spec_set_attr(spec_osd_init_steps(grp, w, h)[k1].op).unwrap().0 == spec_set_attr(
                spec_osd_init_steps(grp, w, h)[k2].op,
            ).unwrap().0 ==> k1 == k2,
        spec_osd_init_steps(grp, w, h).len() == 22,
        spec_set_attr(spec_osd_init_steps(grp, w, h)[9].op) matches Some((s, _)) && s == 0,
        spec_set_attr(spec_osd_init_steps(grp, w, h)[12].op) matches Some((s, _)) && s == 1,
        spec_set_attr(spec_osd_init_steps(grp, w, h)[15].op) matches Some((s, _)) && s == 2,
        spec_set_attr(spec_osd_init_steps(grp, w, h)[18].op) matches Some((s, _)) && s == 3,
{
    let p = spec_osd_init_steps(grp, w, h);
    assert(p.len() == 22);
    assert forall|k: int| 0 <= k < 22 && !(k == 9 || k == 12 || k == 15 || k == 18) implies spec_set_attr(p[k].op) is None by {}
    assert(p[9].op == Op::OsdSetRgnAttr { slot: 0, attr: spec_font_attr() });
    assert(p[12].op == Op::OsdSetRgnAttr { slot: 1, attr: spec_logo_attr(w, h) });
    assert(p[15].op == Op::OsdSetRgnAttr { slot: 2, attr: spec_cover_attr(w, h) });
    assert(p[18].op == Op::OsdSetRgnAttr { slot: 3, attr: spec_rect_attr() });
}

/// The calls that show the OSD: regions 0 to 3 in turn (timestamp, logo,
/// cover, rectangle), each on OSD group 0 with the show flag 1. Their four
/// results are combined by `combine_show`.
pub open spec fn spec_osd_show_calls() -> Seq<Op> {
    seq![
        Op::OsdShowRgn { slot: 0, grp: GRP_NUM, show: 1 },
        Op::OsdShowRgn { slot: 1, grp: GRP_NUM, show: 1 },
        Op::OsdShowRgn { slot: 2, grp: GRP_NUM, show: 1 },
        Op::OsdShowRgn { slot: 3, grp: GRP_NUM, show: 1 },
    ]
}

/// The calls that show the OSD, in order.
pub fn osd_show_calls() -> (c: Vec<Op>)
    ensures
        c@ == spec_osd_show_calls(),
{
    let mut c: Vec<Op> = Vec::new();
    let mut k: usize = 0;
    while k < 4
        invariant
            k <= 4,
            c@ =~= Seq::new(k as nat, |i: int| Op::OsdShowRgn { slot: i as usize, grp: GRP_NUM, show: 1 }),
        decreases 4 - k,
    {
        c.push(Op::OsdShowRgn { slot: k, grp: GRP_NUM, show: 1 });
        k = k + 1;
    }
    assert(c@ =~= spec_osd_show_calls());
    c
}

/// The calls of OSD shut-down.
pub fn sample_osd_exit(grp: i32) -> (p: Vec<Step>)
    ensures
        p@ == spec_osd_exit_steps(grp),
{
    let mut p: Vec<Step> = Vec::new();
    let mut k: usize = 0;
    while k < 4
        invariant
            k <= 4,
            p@ =~= Seq::new(k as nat, |i: int| spec_ign(Op::OsdShowRgn { slot: i as usize, grp, show: 0 })),
        decreases 4 - k,
    {
        p.push(ign(Op::OsdShowRgn { slot: k, grp, show: 0 }));
        k = k + 1;
    }
    k = 0;
    while k < 4
        invariant
            k <= 4,
            p@ =~= Seq::new(4, |i: int| spec_ign(Op::OsdShowRgn { slot: i as usize, grp, show: 0 }))
                + Seq::new(k as nat, |i: int| spec_ign(Op::OsdUnRegisterRgn { slot: i as usize, grp })),
        decreases 4 - k,
    {
        p.push(ign(Op::OsdUnRegisterRgn { slot: k, grp }));
        k = k + 1;
    }
    k = 0;
    while k < 4
        invariant
            k <= 4,
            p@ =~= Seq::new(4, |i: int| spec_ign(Op::OsdShowRgn { slot: i as usize, grp, show: 0 }))
                + Seq::new(4, |i: int| spec_ign(Op::OsdUnRegisterRgn { slot: i as usize, grp }))
                + Seq::new(k as nat, |i: int| spec_ign(Op::OsdDestroyRgn(i as usize))),
        decreases 4 - k,
    {
        p.push(ign(Op::OsdDestroyRgn(k)));
        k = k + 1;
    }
    p.push(chk(Op::OsdDestroyGroup(grp)));
    p.push(ign(Op::OsdFreeHandles));
    assert(p@ =~= spec_osd_exit_steps(grp));
    p
}

/// Whether a sequence makes a call.
pub open spec fn spec_calls(steps: Seq<Step>, op: Op) -> bool {
    exists|k: int| 0 <= k < steps.len() && steps[k].op == op
}

/// OSD start-up creates regions in slots 0 to 3 and no others, and every
/// one of them OSD shut-down hides, unregisters and destroys; the group
/// that start-up starts is the one that shut-down destroys.
pub proof fn lemma_osd_exit_releases_init(grp: i32, w: i32, h: i32)
    ensures
        forall|slot: usize| #[trigger] spec_calls(spec_osd_init_steps(grp, w, h), Op::OsdCreateRgn(slot)) <==> slot < 4,
        forall|slot: usize| slot < 4 ==> {
            &&& #[trigger] spec_calls(spec_osd_exit_steps(grp), Op::OsdShowRgn { slot, grp, show: 0 })
            &&& spec_calls(spec_osd_exit_steps(grp), Op::OsdUnRegisterRgn { slot, grp })
            &&& spec_calls(spec_osd_exit_steps(grp), Op::OsdDestroyRgn(slot))
        },
        spec_calls(spec_osd_init_steps(grp, w, h), Op::OsdStart(grp)),
        spec_calls(spec_osd_exit_steps(grp), Op::OsdDestroyGroup(grp)),
{
    let init = spec_osd_init_steps(grp, w, h);
    let exit = spec_osd_exit_steps(grp);
    assert forall|slot: usize| #[trigger] spec_calls(init, Op::OsdCreateRgn(slot)) <==> slot < 4 by {
        if spec_calls(init, Op::OsdCreateRgn(slot)) {
            let k = choose|k: int| 0 <= k < init.len() && init[k].op == Op::OsdCreateRgn(slot);
            assert(1 <= k <= 4);
        }
        if slot < 4 {
            assert(init[slot + 1].op == Op::OsdCreateRgn(slot));
        }
    }
    assert forall|slot: usize| slot < 4 implies {
        &&& #[trigger] spec_calls(exit, Op::OsdShowRgn { slot, grp, show: 0 })
        &&& spec_calls(exit, Op::OsdUnRegisterRgn { slot, grp })
        &&& spec_calls(exit, Op::OsdDestroyRgn(slot))
    } by {
        assert(exit[slot as int].op == Op::OsdShowRgn { slot, grp, show: 0 });
        assert(exit[slot + 4].op == Op::OsdUnRegisterRgn { slot, grp });
        assert(exit[slot + 8].op == Op::OsdDestroyRgn(slot));
    }
    assert(init[init.len() - 1].op == Op::OsdStart(grp));
    assert(exit[12].op == Op::OsdDestroyGroup(grp));
}

/// The OSD cell of group `grp`.
pub open spec fn spec_osd_cell(grp: i32) -> IMPCell {
    IMPCell { deviceID: IMPDeviceID::DEV_ID_OSD, groupID: grp, outputID: 0 }
}

/// The whole OSD sample on a channel table: bring up the system, the
/// frame sources, the encoder groups and channels, the OSD group and its
/// regions; bind frame source 0 to the OSD group and the OSD group to
/// encoder 0; start the timestamp thread; stream and capture; then take
/// everything down in reverse. Stages that the sample runs as a whole
/// (system, frame sources, encoder channels, OSD regions, streaming,
/// capture) stop the program when they fail; the calls it makes itself
/// return their error.
pub open spec fn spec_osd_start_steps(
    chns: Seq<ChnConf>,
    gosd: i32,
    method: IMPEncoderRcMode,
    direct_switch: i32,
    by_fd: bool,
    w: i32,
    h: i32,
) -> Seq<Step> {
    let osd = spec_osd_cell(GRP_NUM);
    let fs0 = chns[0].framesource_chn;
    let enc0 = chns[0].imp_encoder;
    spec_aborting(spec_system_init_steps(gosd))
        + spec_aborting(spec_phase_plan(ChnPhase::FsInit, chns))
        + spec_phase_plan(ChnPhase::EncGroupCreate, chns)
        + spec_aborting(spec_phase_plan(ChnPhase::EncInit { method, direct_switch }, chns))
        + seq![spec_chk(Op::OsdCreateGroup(GRP_NUM))]
        + spec_aborting(spec_osd_init_steps(GRP_NUM, w, h))
        + seq![
            spec_chk(Op::Bind(fs0, osd)),
            spec_chk(Op::Bind(osd, enc0)),
            spec_chk(Op::AllocTimestamp),
            spec_nz(Op::StartUpdateThread),
            spec_ign(Op::FsSetFrameDepth(0, 0)),
        ]
        + spec_aborting(spec_phase_plan(ChnPhase::FsStreamOn, chns))
        + spec_aborting(seq![spec_chk(Op::Capture { by_fd })])
        + spec_aborting(spec_phase_plan(ChnPhase::FsStreamOff, chns))
        + seq![
            spec_ign(Op::StopUpdateThread),
            spec_chk(Op::UnBind(osd, enc0)),
            spec_chk(Op::UnBind(fs0, osd)),
        ]
        + spec_aborting(spec_osd_exit_steps(GRP_NUM))
        + spec_aborting(spec_phase_plan(ChnPhase::EncExit, chns))
        + spec_phase_plan(ChnPhase::EncGroupDestroy, chns)
        + spec_aborting(spec_phase_plan(ChnPhase::FsExit, chns))
        + spec_aborting(spec_system_exit_steps())
}

/// The table can be run through the OSD sample: two channels or more,
/// and every channel that will be enabled admits its encoder attributes.
pub open spec fn spec_osd_start_fits(chns: Seq<ChnConf>, method: IMPEncoderRcMode, w: i32, h: i32) -> bool {
    &&& chns.len() >= 2
    &&& 0 <= w
    &&& 0 <= h
    &&& forall|i: int| 0 <= i < chns.len() && (i == 0 || (i >= 2 && (#[trigger] chns[i]).enable))
        ==> encoder_plan_fits(chns[i], method)
}

/// The OSD sample: shows the OSD on channel 0 only (channel 0 switched
/// on, channel 1 off), then returns the calls it makes on that table.
#[verifier::rlimit(40)]
pub fn osd_start_plan(
    chns: &mut Vec<ChnConf>,
    gosd: i32,
    method: IMPEncoderRcMode,
    direct_switch: i32,
    by_fd: bool,
    w: i32,
    h: i32,
) -> (p: Vec<Step>)
    requires
        spec_osd_start_fits(old(chns)@, method, w, h),
    ensures
        final(chns).len() == old(chns).len(),
        final(chns)@[0] == (ChnConf { enable: true, ..old(chns)@[0] }),
        final(chns)@[1] == (ChnConf { enable: false, ..old(chns)@[1] }),
        forall|i: int| 2 <= i < old(chns).len() ==> #[trigger] final(chns)@[i] == old(chns)@[i],
        p@ == spec_osd_start_steps(final(chns)@, gosd, method, direct_switch, by_fd, w, h),
{
    crate::config::select_osd_channels(chns);
    let c: &Vec<ChnConf> = chns;
    assert forall|i: int| 0 <= i < c.len() && (#[trigger] c@[i]).enable implies encoder_plan_fits(c@[i], method) && encoder_chn_num_fits(c@[i]) by {
        assert(i == 0 || i >= 2);
    }
    let osd = IMPCell { deviceID: IMPDeviceID::DEV_ID_OSD, groupID: GRP_NUM, outputID: 0 };
    let fs0 = c[0].framesource_chn;
    let enc0 = c[0].imp_encoder;
    let mut p = aborting(sample_system_init(gosd));
    let mut s = aborting(sample_framesource_init(c));
    p.append(&mut s);
    let mut s = phase_plan(ChnPhase::EncGroupCreate, c);
    p.append(&mut s);
    let mut s = aborting(sample_encoder_init(c, method, direct_switch));
    p.append(&mut s);
    p.push(chk(Op::OsdCreateGroup(GRP_NUM)));
    let mut s = aborting(sample_osd_init(GRP_NUM, w, h));
    p.append(&mut s);
    p.push(chk(Op::Bind(fs0, osd)));
    p.push(chk(Op::Bind(osd, enc0)));
    p.push(chk(Op::AllocTimestamp));
    p.push(nz(Op::StartUpdateThread));
    p.push(ign(Op::FsSetFrameDepth(0, 0)));
    let mut s = aborting(sample_framesource_streamon(c));
    p.append(&mut s);
    let mut cap: Vec<Step> = Vec::new();
    cap.push(chk(Op::Capture { by_fd }));
    let ghost cap_v = cap@;
    let mut s = aborting(cap);
    p.append(&mut s);
    let mut s = aborting(sample_framesource_streamoff(c));
    p.append(&mut s);
    p.push(ign(Op::StopUpdateThread));
    p.push(chk(Op::UnBind(osd, enc0)));
    p.push(chk(Op::UnBind(fs0, osd)));
    let mut s = aborting(sample_osd_exit(GRP_NUM));
    p.append(&mut s);
    let mut s = aborting(sample_encoder_exit(c));
    p.append(&mut s);
    let mut s = phase_plan(ChnPhase::EncGroupDestroy, c);
    p.append(&mut s);
    let mut s = aborting(sample_framesource_exit(c));
    p.append(&mut s);
    let mut s = aborting(sample_system_exit());
    p.append(&mut s);
    assert(cap_v =~= seq![spec_chk(Op::Capture { by_fd })]);
    assert(p@ =~= spec_osd_start_steps(c@, gosd, method, direct_switch, by_fd, w, h));
    p
}

/// The OSD sample unbinds in reverse the two bindings it makes: encoder
/// 0 from the OSD group first, then the OSD group from frame source 0.
pub proof fn lemma_unbind_reverses_bind(
    chns: Seq<ChnConf>,
    gosd: i32,
    method: IMPEncoderRcMode,
    direct_switch: i32,
    by_fd: bool,
    w: i32,
    h: i32,
)
    requires
        chns.len() >= 1,
    ensures
        ({
            let p = spec_osd_start_steps(chns, gosd, method, direct_switch, by_fd, w, h);
            exists|a: int, b: int, c: int, d: int|
                0 <= a < b < c < d < p.len()
                && p[a].op == Op::Bind(chns[0].framesource_chn, spec_osd_cell(GRP_NUM))
                && p[b].op == Op::Bind(spec_osd_cell(GRP_NUM), chns[0].imp_encoder)
                && p[c].op == Op::UnBind(spec_osd_cell(GRP_NUM), chns[0].imp_encoder)
                && p[d].op == Op::UnBind(chns[0].framesource_chn, spec_osd_cell(GRP_NUM))
        }),
{
    let osd = spec_osd_cell(GRP_NUM);
    let fs0 = chns[0].framesource_chn;
    let enc0 = chns[0].imp_encoder;
    let pre = spec_aborting(spec_system_init_steps(gosd))
        + spec_aborting(spec_phase_plan(ChnPhase::FsInit, chns))
        + spec_phase_plan(ChnPhase::EncGroupCreate, chns)
        + spec_aborting(spec_phase_plan(ChnPhase::EncInit { method, direct_switch }, chns))
        + seq![spec_chk(Op::OsdCreateGroup(GRP_NUM))]
        + spec_aborting(spec_osd_init_steps(GRP_NUM, w, h));
    let binds = seq![
        spec_chk(Op::Bind(fs0, osd)),
        spec_chk(Op::Bind(osd, enc0)),
        spec_chk(Op::AllocTimestamp),
        spec_nz(Op::StartUpdateThread),
        spec_ign(Op::FsSetFrameDepth(0, 0)),
    ];
    let mid = spec_aborting(spec_phase_plan(ChnPhase::FsStreamOn, chns))
        + spec_aborting(seq![spec_chk(Op::Capture { by_fd })])
        + spec_aborting(spec_phase_plan(ChnPhase::FsStreamOff, chns));
    let unbinds = seq![
        spec_ign(Op::StopUpdateThread),
        spec_chk(Op::UnBind(osd, enc0)),
        spec_chk(Op::UnBind(fs0, osd)),
    ];
    let post = spec_aborting(spec_osd_exit_steps(GRP_NUM))
        + spec_aborting(spec_phase_plan(ChnPhase::EncExit, chns))
        + spec_phase_plan(ChnPhase::EncGroupDestroy, chns)
        + spec_aborting(spec_phase_plan(ChnPhase::FsExit, chns))
        + spec_aborting(spec_system_exit_steps());
    let p = spec_osd_start_steps(chns, gosd, method, direct_switch, by_fd, w, h);
    assert(p =~= pre + binds + mid + unbinds + post);
    let a = pre.len() as int;
    let c: int = (pre.len() + binds.len() + mid.len() + 1) as int;
    assert(p[a] == binds[0]);
    assert(p[a + 1] == binds[1]);
    assert(p[c] == unbinds[1]);
    assert(p[c + 1] == unbinds[2]);
}


proof fn lemma_aborting_ops(s: Seq<Step>)
    ensures
        spec_aborting(s).len() == s.len(),
        forall|k: int| 0 <= k < s.len() ==> (#[trigger] spec_aborting(s)[k]).op == s[k].op,
{
}

/// A plan enables frame-source channel `index`, then captures, then
/// disables the same channel, then destroys it, in that order.
pub open spec fn spec_stream_stopped(p: Seq<Step>, index: i32, by_fd: bool) -> bool {
    exists|a: int, c: int, b: int, d: int|
        0 <= a < c < b < d < p.len()
        && (#[trigger] p[a]).op == Op::FsEnableChn(index)
        && (#[trigger] p[c]).op == Op::Capture { by_fd }
        && (#[trigger] p[b]).op == Op::FsDisableChn(index)
        && (#[trigger] p[d]).op == Op::FsDestroyChn(index)
}

/// The frame-source channel a call enables, if it enables one.
pub open spec fn spec_enable_index(op: Op) -> Option<i32> {
    match op {
        Op::FsEnableChn(i) => Some(i),
        _ => None,
    }
}

proof fn lemma_phase_enables(ph: ChnPhase, chns: Seq<ChnConf>)
    ensures
        forall|m: int| 0 <= m < spec_phase_plan(ph, chns).len() && ph != ChnPhase::FsStreamOn ==>
            (#[trigger] spec_phase_plan(ph, chns)[m]).op !is FsEnableChn,
    decreases chns.len(),
{
    if chns.len() > 0 {
        lemma_phase_enables(ph, chns.drop_last());
        let rest = spec_phase_plan(ph, chns.drop_last());
        let st = spec_phase_steps(ph, chns.len() - 1, chns.last());
        assert forall|m: int| 0 <= m < st.len() && ph != ChnPhase::FsStreamOn implies (#[trigger] st[m]).op !is FsEnableChn by {
            match ph {
                ChnPhase::EncInit { method, direct_switch } => {},
                ChnPhase::EncExit => {},
                _ => {},
            }
        }
        if chns.last().enable {
            assert forall|m: int| 0 <= m < spec_phase_plan(ph, chns).len() && ph != ChnPhase::FsStreamOn implies
                (#[trigger] spec_phase_plan(ph, chns)[m]).op !is FsEnableChn by {
                if m < rest.len() {
                    assert(spec_phase_plan(ph, chns)[m] == rest[m]);
                } else {
                    assert(spec_phase_plan(ph, chns)[m] == st[m - rest.len()]);
                }
            }
        }
    }
}

/// In the OSD sample, every enabled channel that starts streaming is
/// stopped again before its frame source is destroyed, and the capture
/// happens in between: for each enabled channel index there is an enable
/// of that frame-source channel, then the capture, then a disable of the
/// same channel, then its destruction, in that order. And the only
/// frame-source channels enabled are those of enabled table channels.
pub proof fn lemma_streaming_stops_before_destroy(
    chns: Seq<ChnConf>,
    gosd: i32,
    method: IMPEncoderRcMode,
    direct_switch: i32,
    by_fd: bool,
    w: i32,
    h: i32,
)
    ensures
        forall|k: int|
            0 <= k < spec_enabled_indices(chns).len() ==> #[trigger] spec_stream_stopped(
                spec_osd_start_steps(chns, gosd, method, direct_switch, by_fd, w, h),
                spec_enabled_indices(chns)[k],
                by_fd,
            ),
        forall|a: int|
            0 <= a < spec_osd_start_steps(chns, gosd, method, direct_switch, by_fd, w, h).len() && (
            #[trigger] spec_enable_index(spec_osd_start_steps(chns, gosd, method, direct_switch, by_fd, w, h)[a].op))
                is Some ==> spec_enabled_indices(chns).contains(
                spec_enable_index(spec_osd_start_steps(chns, gosd, method, direct_switch, by_fd, w, h)[a].op).unwrap(),
            ),
{
    let osd = spec_osd_cell(GRP_NUM);
    let fs0 = chns[0].framesource_chn;
    let enc0 = chns[0].imp_encoder;
    let pre = spec_aborting(spec_system_init_steps(gosd))
        + spec_aborting(spec_phase_plan(ChnPhase::FsInit, chns))
        + spec_phase_plan(ChnPhase::EncGroupCreate, chns)
        + spec_aborting(spec_phase_plan(ChnPhase::EncInit { method, direct_switch }, chns))
        + seq![spec_chk(Op::OsdCreateGroup(GRP_NUM))]
        + spec_aborting(spec_osd_init_steps(GRP_NUM, w, h))
        + seq![
            spec_chk(Op::Bind(fs0, osd)),
            spec_chk(Op::Bind(osd, enc0)),
            spec_chk(Op::AllocTimestamp),
            spec_nz(Op::StartUpdateThread),
            spec_ign(Op::FsSetFrameDepth(0, 0)),
        ];
    let on_raw = spec_phase_plan(ChnPhase::FsStreamOn, chns);
    let off_raw = spec_phase_plan(ChnPhase::FsStreamOff, chns);
    let fsx_raw = spec_phase_plan(ChnPhase::FsExit, chns);
    let on = spec_aborting(on_raw);
    let cap = spec_aborting(seq![spec_chk(Op::Capture { by_fd })]);
    let off = spec_aborting(off_raw);
    let mid = seq![
        spec_ign(Op::StopUpdateThread),
        spec_chk(Op::UnBind(osd, enc0)),
        spec_chk(Op::UnBind(fs0, osd)),
    ] + spec_aborting(spec_osd_exit_steps(GRP_NUM))
        + spec_aborting(spec_phase_plan(ChnPhase::EncExit, chns))
        + spec_phase_plan(ChnPhase::EncGroupDestroy, chns);
    let fsx = spec_aborting(fsx_raw);
    let post = spec_aborting(spec_system_exit_steps());
    let p = spec_osd_start_steps(chns, gosd, method, direct_switch, by_fd, w, h);
    assert(p =~= pre + on + cap + off + mid + fsx + post);
    lemma_teardown_mirrors_setup(chns);
    lemma_aborting_ops(on_raw);
    lemma_aborting_ops(off_raw);
    lemma_aborting_ops(fsx_raw);
    lemma_aborting_ops(seq![spec_chk(Op::Capture { by_fd })]);
    let idx = spec_enabled_indices(chns);
    let n = idx.len() as int;
    assert forall|k: int| 0 <= k < idx.len() implies #[trigger] spec_stream_stopped(p, idx[k], by_fd) by {
        let a = pre.len() + k;
        let c = pre.len() + n;
        let b = pre.len() + n + 1 + k;
        let d = pre.len() + n + 1 + n + mid.len() + k;
        assert(on_raw[k].op == Op::FsEnableChn(idx[k]));
        assert(off_raw[k].op == Op::FsDisableChn(idx[k]));
        assert(fsx_raw[k].op == Op::FsDestroyChn(idx[k]));
        assert(p[a] == on[k]);
        assert(p[c] == cap[0]);
        assert(p[b] == off[k]);
        assert(p[d] == fsx[k]);
        assert(0 <= a < c < b < d < p.len());
    }
    lemma_phase_enables(ChnPhase::FsInit, chns);
    lemma_phase_enables(ChnPhase::EncGroupCreate, chns);
    lemma_phase_enables(ChnPhase::EncInit { method, direct_switch }, chns);
    lemma_phase_enables(ChnPhase::EncExit, chns);
    lemma_phase_enables(ChnPhase::EncGroupDestroy, chns);
    lemma_phase_enables(ChnPhase::FsStreamOff, chns);
    lemma_phase_enables(ChnPhase::FsExit, chns);
    lemma_aborting_ops(spec_system_init_steps(gosd));
    lemma_aborting_ops(spec_phase_plan(ChnPhase::FsInit, chns));
    lemma_aborting_ops(spec_phase_plan(ChnPhase::EncInit { method, direct_switch }, chns));
    lemma_aborting_ops(spec_osd_init_steps(GRP_NUM, w, h));
    lemma_aborting_ops(spec_osd_exit_steps(GRP_NUM));
    lemma_aborting_ops(spec_phase_plan(ChnPhase::EncExit, chns));
    lemma_aborting_ops(spec_system_exit_steps());
    assert forall|m: int| 0 <= m < pre.len() implies (#[trigger] pre[m]).op !is FsEnableChn by {
        let s1 = spec_aborting(spec_system_init_steps(gosd));
        let s2 = spec_aborting(spec_phase_plan(ChnPhase::FsInit, chns));
        let s3 = spec_phase_plan(ChnPhase::EncGroupCreate, chns);
        let s4 = spec_aborting(spec_phase_plan(ChnPhase::EncInit { method, direct_switch }, chns));
        let s6 = spec_aborting(spec_osd_init_steps(GRP_NUM, w, h));
        if m < s1.len() {
            assert(spec_system_init_steps(gosd)[m].op !is FsEnableChn);
        } else if m < s1.len() + s2.len() {
            assert(spec_phase_plan(ChnPhase::FsInit, chns)[m - s1.len()].op !is FsEnableChn);
        } else if m < s1.len() + s2.len() + s3.len() {
            assert(s3[m - s1.len() - s2.len()].op !is FsEnableChn);
        } else if m < s1.len() + s2.len() + s3.len() + s4.len() {
            assert(spec_phase_plan(ChnPhase::EncInit { method, direct_switch }, chns)[m - s1.len() - s2.len()
                - s3.len()].op !is FsEnableChn);
        } else if m < s1.len() + s2.len() + s3.len() + s4.len() + 1 {
        } else if m < s1.len() + s2.len() + s3.len() + s4.len() + 1 + s6.len() {
            assert(spec_osd_init_steps(GRP_NUM, w, h)[m - s1.len() - s2.len() - s3.len() - s4.len() - 1].op !is FsEnableChn);
        }
    }
    assert forall|m: int| 0 <= m < mid.len() implies (#[trigger] mid[m]).op !is FsEnableChn by {
        let t1 = spec_aborting(spec_osd_exit_steps(GRP_NUM));
        let t2 = spec_aborting(spec_phase_plan(ChnPhase::EncExit, chns));
        if 3 <= m < 3 + t1.len() {
            assert(spec_osd_exit_steps(GRP_NUM)[m - 3].op !is FsEnableChn);
        } else if 3 + t1.len() <= m < 3 + t1.len() + t2.len() {
            assert(spec_phase_plan(ChnPhase::EncExit, chns)[m - 3 - t1.len()].op !is FsEnableChn);
        } else if m >= 3 + t1.len() + t2.len() {
            assert(spec_phase_plan(ChnPhase::EncGroupDestroy, chns)[m - 3 - t1.len() - t2.len()].op !is FsEnableChn);
        }
    }
    assert forall|m: int| 0 <= m < post.len() implies (#[trigger] post[m]).op !is FsEnableChn by {
        assert(spec_system_exit_steps()[m].op !is FsEnableChn);
    }
    assert forall|a: int| 0 <= a < p.len() && (#[trigger] spec_enable_index(p[a].op)) is Some implies
        idx.contains(spec_enable_index(p[a].op).unwrap()) by {
        if a < pre.len() {
            assert(p[a] == pre[a]);
        } else if a < pre.len() + n {
            let k = a - pre.len();
            assert(p[a] == on[k]);
            assert(on_raw[k].op == Op::FsEnableChn(idx[k]));
        } else if a < pre.len() + n + 1 {
            assert(p[a] == cap[a - pre.len() - n]);
        } else if a < pre.len() + n + 1 + n {
            assert(p[a] == off[a - pre.len() - n - 1]);
            assert(off_raw[a - pre.len() - n - 1].op == Op::FsDisableChn(idx[a - pre.len() - n - 1]));
        } else if a < pre.len() + n + 1 + n + mid.len() {
            assert(p[a] == mid[a - pre.len() - n - 1 - n]);
        } else if a < pre.len() + n + 1 + n + mid.len() + n {
            let k = a - pre.len() - n - 1 - n - mid.len();
            assert(p[a] == fsx[k]);
            assert(fsx_raw[k].op == Op::FsDestroyChn(idx[k]));
        } else {
            assert(p[a] == post[a - pre.len() - n - 1 - n - mid.len() - n]);
        }
    }
}

} // verus!
