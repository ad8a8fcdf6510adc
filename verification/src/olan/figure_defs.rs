//! The figure catalog: the canonical, unrolled, upright skeleton of every
//! named OLAN figure, one pure table per figure family, plus the
//! parametric rolling-turn generator.

use vstd::prelude::*;

use crate::olan::syntax::{TurnKind, TurnRollCount};
use crate::types::{Element, ElementType, RollType};

verus! {

/// Mnemonics of the single line family.
#[derive(Clone, Copy, Debug, PartialEq, Eq, Structural)]
pub enum SingleLineFigure {
    /// `0`
    Zero,
    /// `d`
    D,
    /// `id`
    Id,
    /// `v`
    V,
    /// `iv`
    Iv,
    /// `z`
    Z,
    /// `iz`
    Iz,
}

/// Mnemonics of the twin line family.
#[derive(Clone, Copy, Debug, PartialEq, Eq, Structural)]
pub enum TwinLineFigure {
    /// `t`
    T,
    /// `it`
    It,
    /// `k`
    K,
    /// `ik`
    Ik,
    /// `zt`
    Zt,
    /// `izt`
    Izt,
    /// `kz`
    Kz,
    /// `ikz`
    Ikz,
}

/// Mnemonics of the loop figure family.
#[derive(Clone, Copy, Debug, PartialEq, Eq, Structural)]
pub enum LoopFigure {
    /// `a`
    A,
    /// `m`
    M,
    /// `o`
    O,
    /// `io`
    Io,
    /// `qo`
    Qo,
    /// `iqo`
    Iqo,
    /// `dq`
    Dq,
    /// `idq`
    Idq,
    /// `qq`
    Qq,
    /// `iqq`
    Iqq,
}

/// Mnemonics of the loop line combo family.
#[derive(Clone, Copy, Debug, PartialEq, Eq, Structural)]
pub enum LoopLineComboFigure {
    /// `c`
    C,
    /// `ic`
    Ic,
    /// `rc`
    Rc,
    /// `irc`
    Irc,
    /// `g`
    G,
    /// `ig`
    Ig,
    /// `p`
    P,
    /// `ip`
    Ip,
    /// `rp`
    Rp,
    /// `irp`
    Irp,
    /// `q`
    Q,
    /// `iq`
    Iq,
    /// `rq`
    Rq,
    /// `irq`
    Irq,
    /// `y`
    Y,
    /// `iy`
    Iy,
    /// `ry`
    Ry,
    /// `iry`
    Iry,
}

/// Mnemonics of the double loop family.
#[derive(Clone, Copy, Debug, PartialEq, Eq, Structural)]
pub enum DoubleLoopFigure {
    /// `cc`
    Cc,
    /// `rcc`
    Rcc,
    /// `oo`
    Oo,
    /// `icc`
    Icc,
    /// `ircc`
    Ircc,
    /// `ioo`
    Ioo,
    /// `ooo`
    Ooo,
}

/// Mnemonics of the humpty family.
#[derive(Clone, Copy, Debug, PartialEq, Eq, Structural)]
pub enum HumptyFigure {
    /// `b`
    B,
    /// `pb`
    Pb,
    /// `bb`
    Bb,
    /// `pbb`
    Pbb,
    /// `db`
    Db,
    /// `rdb`
    Rdb,
}

/// Mnemonics of the hammerhead family.
#[derive(Clone, Copy, Debug, PartialEq, Eq, Structural)]
pub enum HammerheadFigure {
    /// `h`
    H,
    /// `dh`
    Dh,
    /// `hd`
    Hd,
    /// `dhd`
    Dhd,
    /// `ta`
    Ta,
    /// `ita`
    Ita,
}

/// Mnemonics of the three roll family.
#[derive(Clone, Copy, Debug, PartialEq, Eq, Structural)]
pub enum ThreeRollFigure {
    /// `n`
    N,
    /// `in`
    In,
    /// `pn`
    Pn,
    /// `ipn`
    Ipn,
    /// `w`
    W,
    /// `iw`
    Iw,
    /// `gg`
    Gg,
    /// `igg`
    Igg,
}

/// Mnemonics of the extra family.
#[derive(Clone, Copy, Debug, PartialEq, Eq, Structural)]
pub enum ExtraFigure {
    /// `mm`
    Mm,
    /// `zb`
    Zb,
    /// `rzb`
    Rzb,
    /// `bz`
    Bz,
    /// `rbz`
    Rbz,
    /// `zy`
    Zy,
}

/// Mnemonics of the non aresti family.
#[derive(Clone, Copy, Debug, PartialEq, Eq, Structural)]
pub enum NonArestiFigure {
    /// `oj`
    Oj,
    /// `ioj`
    Ioj,
    /// `mj`
    Mj,
    /// `aj`
    Aj,
}

/// A figure mnemonic together with the catalog family it belongs to.
#[derive(Clone, Copy, Debug, PartialEq, Eq, Structural)]
pub enum Mnemonic {
    SingleLine(SingleLineFigure),
    TwinLine(TwinLineFigure),
    LoopFigure(LoopFigure),
    LoopLineCombo(LoopLineComboFigure),
    DoubleLoop(DoubleLoopFigure),
    Humpty(HumptyFigure),
    Hammerhead(HammerheadFigure),
    ThreeRoll(ThreeRollFigure),
    Extra(ExtraFigure),
    NonAresti(NonArestiFigure),
}

pub open spec fn single_line_skeleton(figure: SingleLineFigure) -> Seq<Element> {
    match figure {
        SingleLineFigure::Zero => seq![
            Element::line(0i16),
        ],
        SingleLineFigure::D => seq![
            Element::radius(45i16),
            Element::line(45i16),
            Element::combining(0i32, Element::line(45i16)),
            Element::line(45i16),
            Element::radius(-45i16),
        ],
        SingleLineFigure::Id => seq![
            Element::radius(-45i16),
            Element::line(-45i16),
            Element::combining(0i32, Element::line(-45i16)),
            Element::line(-45i16),
            Element::radius(45i16),
        ],
        SingleLineFigure::V => seq![
            Element::radius(90i16),
            Element::line(90i16),
            Element::combining(0i32, Element::line(90i16)),
            Element::line(90i16),
            Element::radius(-90i16),
        ],
        SingleLineFigure::Iv => seq![
            Element::radius(-90i16),
            Element::line(-90i16),
            Element::combining(0i32, Element::line(-90i16)),
            Element::line(-90i16),
            Element::radius(90i16),
        ],
        SingleLineFigure::Z => seq![
            Element::radius(135i16),
            Element::line(45i16),
            Element::combining(0i32, Element::line(45i16)),
            Element::line(45i16),
            Element::radius(-135i16),
        ],
        SingleLineFigure::Iz => seq![
            Element::radius(-135i16),
            Element::line(-45i16),
            Element::combining(0i32, Element::line(-45i16)),
            Element::line(-45i16),
            Element::radius(135i16),
        ],
    }
}

pub open spec fn twin_line_skeleton(figure: TwinLineFigure) -> Seq<Element> {
    match figure {
        TwinLineFigure::T => seq![
            Element::radius(45i16),
            Element::line(45i16),
            Element::radius(-135i16),
            Element::line(-90i16),
            Element::radius(90i16),
        ],
        TwinLineFigure::It => seq![
            Element::radius(-45i16),
            Element::line(-45i16),
            Element::radius(135i16),
            Element::line(90i16),
            Element::radius(-90i16),
        ],
        TwinLineFigure::K => seq![
            Element::radius(90i16),
            Element::line(90i16),
            Element::radius(-135i16),
            Element::line(-45i16),
            Element::radius(45i16),
        ],
        TwinLineFigure::Ik => seq![
            Element::radius(-90i16),
            Element::line(-90i16),
            Element::radius(135i16),
            Element::line(45i16),
            Element::radius(-45i16),
        ],
        TwinLineFigure::Zt => seq![
            Element::radius(135i16),
            Element::line(45i16),
            Element::radius(135i16),
            Element::line(-90i16),
            Element::radius(90i16),
        ],
        TwinLineFigure::Izt => seq![
            Element::radius(-135i16),
            Element::line(-45i16),
            Element::radius(-135i16),
            Element::line(90i16),
            Element::radius(-90i16),
        ],
        TwinLineFigure::Kz => seq![
            Element::radius(90i16),
            Element::line(90i16),
            Element::radius(-135i16),
            Element::line(-45i16),
            Element::radius(-135i16),
        ],
        TwinLineFigure::Ikz => seq![
            Element::radius(-90i16),
            Element::line(-90i16),
            Element::radius(135i16),
            Element::line(45i16),
            Element::radius(135i16),
        ],
    }
}

pub open spec fn loop_figure_skeleton(figure: LoopFigure) -> Seq<Element> {
    match figure {
        LoopFigure::A => seq![
            Element::combining(-1i32, Element::line(0i16)),
            Element::radius(-180i16),
            Element::combining(0i32, Element::invline(0i16)),
        ],
        LoopFigure::M => seq![
            Element::combining(-1i32, Element::line(0i16)),
            Element::radius(180i16),
            Element::combining(0i32, Element::invline(0i16)),
        ],
        LoopFigure::O => seq![
            Element::radius(170i16),
            Element::combining(0i32, Element::invradius(20i16)),
            Element::invradius(170i16),
        ],
        LoopFigure::Io => seq![
            Element::radius(-170i16),
            Element::combining(0i32, Element::invradius(-20i16)),
            Element::invradius(-170i16),
        ],
        LoopFigure::Qo => seq![
            Element::radius(90i16),
            Element::line(90i16),
            Element::radius(90i16),
            Element::line(0i16),
            Element::radius(90i16),
            Element::line(-90i16),
            Element::radius(90i16),
            Element::line(0i16),
        ],
        LoopFigure::Iqo => seq![
            Element::radius(-90i16),
            Element::line(-90i16),
            Element::radius(-90i16),
            Element::line(0i16),
            Element::radius(-90i16),
            Element::line(90i16),
            Element::radius(-90i16),
            Element::line(0i16),
        ],
        LoopFigure::Dq => seq![
            Element::radius(45i16),
            Element::line(45i16),
            Element::combining(-1i32, Element::line(45i16)),
            Element::line(45i16),
            Element::radius(90i16),
            Element::invline(45i16),
            Element::radius(90i16),
            Element::invline(-45i16),
            Element::combining(0i32, Element::invline(-45i16)),
            Element::invline(-45i16),
            Element::radius(90i16),
            Element::line(-45i16),
            Element::radius(45i16),
        ],
        LoopFigure::Idq => seq![
            Element::radius(-45i16),
            Element::line(-45i16),
            Element::combining(0i32, Element::line(-45i16)),
            Element::line(-45i16),
            Element::radius(-90i16),
            Element::invline(-45i16),
            Element::radius(-90i16),
            Element::invline(45i16),
            Element::combining(1i32, Element::invline(45i16)),
            Element::invline(45i16),
            Element::radius(-90i16),
            Element::line(45i16),
            Element::radius(-45i16),
        ],
        LoopFigure::Qq => seq![
            Element::radius(45i16),
            Element::line(45i16),
            Element::radius(45i16),
            Element::line(90i16),
            Element::radius(45i16),
            Element::invline(45i16),
            Element::radius(45i16),
            Element::invline(0i16),
            Element::radius(45i16),
            Element::invline(-45i16),
            Element::radius(45i16),
            Element::line(-90i16),
            Element::radius(45i16),
            Element::line(-45i16),
            Element::radius(45i16),
        ],
        LoopFigure::Iqq => seq![
            Element::radius(-45i16),
            Element::line(-45i16),
            Element::radius(-45i16),
            Element::line(-90i16),
            Element::radius(-45i16),
            Element::invline(-45i16),
            Element::radius(-45i16),
            Element::invline(0i16),
            Element::radius(-45i16),
            Element::invline(45i16),
            Element::radius(-45i16),
            Element::line(90i16),
            Element::radius(-45i16),
            Element::line(45i16),
            Element::radius(-45i16),
        ],
    }
}

pub open spec fn loop_line_combo_skeleton(figure: LoopLineComboFigure) -> Seq<Element> {
    match figure {
        LoopLineComboFigure::C => seq![
            Element::radius(225i16),
            Element::invline(-45i16),
            Element::combining(0i32, Element::invline(-45i16)),
            Element::invline(-45i16),
            Element::radius(-45i16),
        ],
        LoopLineComboFigure::Ic => seq![
            Element::radius(-225i16),
            Element::invline(45i16),
            Element::combining(0i32, Element::invline(45i16)),
            Element::invline(45i16),
            Element::radius(45i16),
        ],
        LoopLineComboFigure::Rc => seq![
            Element::radius(45i16),
            Element::line(45i16),
            Element::combining(0i32, Element::line(45i16)),
            Element::line(45i16),
            Element::radius(-225i16),
        ],
        LoopLineComboFigure::Irc => seq![
            Element::radius(-45i16),
            Element::line(-45i16),
            Element::combining(0i32, Element::line(-45i16)),
            Element::line(-45i16),
            Element::radius(225i16),
        ],
        LoopLineComboFigure::G => seq![
            Element::radius(45i16),
            Element::line(45i16),
            Element::combining(-1i32, Element::line(45i16)),
            Element::line(45i16),
            Element::radius(-270i16),
            Element::invline(45i16),
            Element::combining(0i32, Element::invline(45i16)),
            Element::invline(45i16),
            Element::radius(45i16),
        ],
        LoopLineComboFigure::Ig => seq![
            Element::radius(-45i16),
            Element::line(-45i16),
            Element::combining(-1i32, Element::line(-45i16)),
            Element::line(-45i16),
            Element::radius(270i16),
            Element::invline(-45i16),
            Element::combining(0i32, Element::invline(-45i16)),
            Element::invline(-45i16),
            Element::radius(-45i16),
        ],
        LoopLineComboFigure::P => seq![
            Element::radius(270i16),
            Element::line(-90i16),
            Element::combining(0i32, Element::line(-90i16)),
            Element::line(-90i16),
            Element::radius(90i16),
        ],
        LoopLineComboFigure::Ip => seq![
            Element::radius(-270i16),
            Element::line(90i16),
            Element::combining(0i32, Element::line(90i16)),
            Element::line(90i16),
            Element::radius(-90i16),
        ],
        LoopLineComboFigure::Rp => seq![
            Element::radius(90i16),
            Element::line(90i16),
            Element::combining(-1i32, Element::line(90i16)),
            Element::line(90i16),
            Element::radius(270i16),
        ],
        LoopLineComboFigure::Irp => seq![
            Element::radius(-90i16),
            Element::line(-90i16),
            Element::combining(-1i32, Element::line(-90i16)),
            Element::line(-90i16),
            Element::radius(-270i16),
        ],
        LoopLineComboFigure::Q => seq![
            Element::combining(-1i32, Element::line(0i16)),
            Element::radius(315i16),
            Element::line(-45i16),
            Element::combining(0i32, Element::line(-45i16)),
            Element::line(-45i16),
            Element::radius(45i16),
        ],
        LoopLineComboFigure::Iq => seq![
            Element::radius(-315i16),
            Element::line(45i16),
            Element::combining(0i32, Element::line(45i16)),
            Element::line(45i16),
            Element::radius(-45i16),
        ],
        LoopLineComboFigure::Rq => seq![
            Element::radius(45i16),
            Element::line(45i16),
            Element::combining(-1i32, Element::line(45i16)),
            Element::line(45i16),
            Element::radius(315i16),
        ],
        LoopLineComboFigure::Irq => seq![
            Element::radius(-45i16),
            Element::line(-45i16),
            Element::combining(-1i32, Element::line(-45i16)),
            Element::line(-45i16),
            Element::radius(-315i16),
        ],
        LoopLineComboFigure::Y => seq![
            Element::radius(45i16),
            Element::line(45i16),
            Element::combining(-1i32, Element::line(45i16)),
            Element::line(45i16),
            Element::radius(225i16),
            Element::line(-90i16),
            Element::combining(0i32, Element::line(-90i16)),
            Element::line(-90i16),
            Element::radius(90i16),
        ],
        LoopLineComboFigure::Iy => seq![
            Element::radius(-45i16),
            Element::line(-45i16),
            Element::combining(-1i32, Element::line(-45i16)),
            Element::line(-45i16),
            Element::radius(-225i16),
            Element::line(90i16),
            Element::combining(0i32, Element::line(90i16)),
            Element::line(90i16),
            Element::radius(-90i16),
        ],
        LoopLineComboFigure::Ry => seq![
            Element::radius(90i16),
            Element::line(90i16),
            Element::combining(-1i32, Element::line(90i16)),
            Element::line(90i16),
            Element::radius(225i16),
            Element::line(-45i16),
            Element::combining(0i32, Element::line(-45i16)),
            Element::line(45i16),
            Element::radius(45i16),
        ],
        LoopLineComboFigure::Iry => seq![
            Element::radius(-90i16),
            Element::line(-90i16),
            Element::combining(-1i32, Element::line(-90i16)),
            Element::line(-90i16),
            Element::radius(-225i16),
            Element::line(45i16),
            Element::combining(0i32, Element::line(45i16)),
            Element::line(45i16),
            Element::radius(-45i16),
        ],
    }
}

pub open spec fn double_loop_skeleton(figure: DoubleLoopFigure) -> Seq<Element> {
    match figure {
        DoubleLoopFigure::Cc => seq![
            Element::line(0i16),
            Element::combining(-1i32, Element::line(0i16)),
            Element::radius(225i16),
            Element::invline(-45i16),
            Element::combining(1i32, Element::invline(-45i16)),
            Element::invline(-45i16),
            Element::radius(-270i16),
            Element::line(-45i16),
            Element::combining(0i32, Element::line(-45i16)),
            Element::line(-45i16),
            Element::radius(45i16),
        ],
        DoubleLoopFigure::Rcc => seq![
            Element::radius(45i16),
            Element::line(45i16),
            Element::combining(-1i32, Element::line(45i16)),
            Element::line(45i16),
            Element::radius(-270i16),
            Element::invline(45i16),
            Element::combining(1i32, Element::invline(45i16)),
            Element::invline(45i16),
            Element::radius(225i16),
            Element::combining(0i32, Element::line(0i16)),
            Element::line(0i16),
        ],
        DoubleLoopFigure::Oo => seq![
            Element::radius(180i16),
            Element::radius(-360i16),
            Element::radius(180i16),
        ],
        DoubleLoopFigure::Icc => seq![
            Element::line(0i16),
            Element::combining(-1i32, Element::line(0i16)),
            Element::radius(-225i16),
            Element::invline(45i16),
            Element::combining(1i32, Element::invline(45i16)),
            Element::invline(45i16),
            Element::radius(270i16),
            Element::line(45i16),
            Element::combining(0i32, Element::line(45i16)),
            Element::line(45i16),
            Element::radius(-45i16),
        ],
        DoubleLoopFigure::Ircc => seq![
            Element::radius(-45i16),
            Element::line(-45i16),
            Element::combining(-1i32, Element::line(-45i16)),
            Element::line(-45i16),
            Element::line(270i16),
            Element::invline(-45i16),
            Element::combining(1i32, Element::invline(-45i16)),
            Element::invline(-45i16),
            Element::radius(-225i16),
            Element::combining(0i32, Element::line(0i16)),
            Element::line(0i16),
        ],
        DoubleLoopFigure::Ioo => seq![
            Element::radius(-180i16),
            Element::radius(360i16),
            Element::radius(-180i16),
        ],
        DoubleLoopFigure::Ooo => seq![
            Element::radius(360i16),
            Element::radius(-360i16),
        ],
    }
}

pub open spec fn humpty_skeleton(figure: HumptyFigure) -> Seq<Element> {
    match figure {
        HumptyFigure::B => seq![
            Element::radius(90i16),
            Element::line(90i16),
            Element::combining(-1i32, Element::line(90i16)),
            Element::line(90i16),
            Element::radius(180i16),
            Element::line(-90i16),
            Element::combining(0i32, Element::line(-90i16)),
            Element::line(-90i16),
            Element::radius(90i16),
        ],
        HumptyFigure::Pb => seq![
            Element::radius(90i16),
            Element::line(90i16),
            Element::combining(-1i32, Element::line(90i16)),
            Element::line(90i16),
            Element::radius(-180i16),
            Element::line(-90i16),
            Element::combining(0i32, Element::line(-90i16)),
            Element::line(-90i16),
            Element::radius(90i16),
        ],
        HumptyFigure::Bb => seq![
            Element::radius(90i16),
            Element::line(90i16),
            Element::combining(-1i32, Element::line(90i16)),
            Element::line(90i16),
            Element::radius(180i16),
            Element::line(-90i16),
            Element::combining(1i32, Element::line(-90i16)),
            Element::line(-90i16),
            Element::radius(180i16),
            Element::line(90i16),
            Element::combining(0i32, Element::line(90i16)),
            Element::line(90i16),
            Element::radius(-90i16),
        ],
        HumptyFigure::Pbb => seq![
            Element::radius(90i16),
            Element::line(90i16),
            Element::combining(-1i32, Element::line(90i16)),
            Element::line(90i16),
            Element::radius(-180i16),
            Element::line(-90i16),
            Element::combining(1i32, Element::line(-90i16)),
            Element::line(-90i16),
            Element::radius(180i16),
            Element::line(90i16),
            Element::combining(0i32, Element::line(90i16)),
            Element::line(90i16),
            Element::radius(-90i16),
        ],
        HumptyFigure::Db => seq![
            Element::radius(45i16),
            Element::line(45i16),
            Element::combining(-1i32, Element::line(45i16)),
            Element::line(90i16),
            Element::radius(180i16),
            Element::invline(-45i16),
            Element::combining(0i32, Element::invline(-45i16)),
            Element::invline(-45i16),
            Element::radius(-45i16),
        ],
        HumptyFigure::Rdb => seq![
            Element::radius(45i16),
            Element::line(45i16),
            Element::combining(-1i32, Element::line(45i16)),
            Element::line(90i16),
            Element::radius(-180i16),
            Element::invline(-45i16),
            Element::combining(0i32, Element::invline(-45i16)),
            Element::invline(-45i16),
            Element::radius(-45i16),
        ],
    }
}

pub open spec fn hammerhead_skeleton(figure: HammerheadFigure) -> Seq<Element> {
    match figure {
        HammerheadFigure::H => seq![
            Element::radius(90i16),
            Element::line(90i16),
            Element::combining(-1i32, Element::line(90i16)),
            Element::line(90i16),
            Element::stall(180i16, 0i16),
            Element::line(-90i16),
            Element::combining(0i32, Element::line(-90i16)),
            Element::line(-90i16),
            Element::radius(90i16),
        ],
        HammerheadFigure::Dh => seq![
            Element::radius(45i16),
            Element::line(45i16),
            Element::combining(-1i32, Element::line(45i16)),
            Element::line(45i16),
            Element::radius(45i16),
            Element::line(90i16),
            Element::combining(1i32, Element::line(90i16)),
            Element::line(90i16),
            Element::stall(180i16, 0i16),
            Element::line(-90i16),
            Element::combining(0i32, Element::line(-90i16)),
            Element::line(-90i16),
            Element::radius(90i16),
        ],
        HammerheadFigure::Hd => seq![
            Element::radius(90i16),
            Element::line(90i16),
            Element::combining(-1i32, Element::line(90i16)),
            Element::line(90i16),
            Element::stall(180i16, 0i16),
            Element::line(-90i16),
            Element::combining(1i32, Element::line(-90i16)),
            Element::line(-90i16),
            Element::radius(45i16),
            Element::line(-45i16),
            Element::combining(0i32, Element::line(-45i16)),
            Element::line(-45i16),
            Element::radius(45i16),
        ],
        HammerheadFigure::Dhd => seq![
            Element::radius(45i16),
            Element::line(45i16),
            Element::combining(-1i32, Element::line(45i16)),
            Element::line(45i16),
            Element::radius(45i16),
            Element::line(90i16),
            Element::combining(1i32, Element::line(90i16)),
            Element::line(90i16),
            Element::stall(180i16, 0i16),
            Element::line(-90i16),
            Element::combining(2i32, Element::line(-90i16)),
            Element::line(-90i16),
            Element::radius(45i16),
            Element::line(-45i16),
            Element::combining(0i32, Element::line(-45i16)),
            Element::line(-45i16),
            Element::radius(45i16),
        ],
        HammerheadFigure::Ta => seq![
            Element::radius(90i16),
            Element::line(90i16),
            Element::combining(-1i32, Element::line(90i16)),
            Element::line(90i16),
            Element::stall(0i16, -180i16),
            Element::line(-90i16),
            Element::combining(0i32, Element::line(-90i16)),
            Element::line(-90i16),
            Element::radius(90i16),
        ],
        HammerheadFigure::Ita => seq![
            Element::radius(90i16),
            Element::line(90i16),
            Element::combining(-1i32, Element::line(90i16)),
            Element::line(90i16),
            Element::stall(0i16, 180i16),
            Element::line(-90i16),
            Element::combining(0i32, Element::line(-90i16)),
            Element::line(-90i16),
            Element::radius(90i16),
        ],
    }
}

pub open spec fn three_roll_skeleton(figure: ThreeRollFigure) -> Seq<Element> {
    match figure {
        ThreeRollFigure::N => seq![
            Element::radius(90i16),
            Element::line(90i16),
            Element::combining(-1i32, Element::line(90i16)),
            Element::line(90i16),
            Element::radius(135i16),
            Element::invline(-45i16),
            Element::combining(1i32, Element::invline(-45i16)),
            Element::invline(-45i16),
            Element::radius(-135i16),
            Element::line(90i16),
            Element::combining(0i32, Element::line(90i16)),
            Element::line(90i16),
            Element::radius(-90i16),
        ],
        ThreeRollFigure::In => seq![
            Element::radius(-90i16),
            Element::line(-90i16),
            Element::combining(-1i32, Element::line(-90i16)),
            Element::line(-90i16),
            Element::radius(135i16),
            Element::line(45i16),
            Element::combining(1i32, Element::line(45i16)),
            Element::line(45i16),
            Element::radius(-135i16),
            Element::line(-90i16),
            Element::combining(0i32, Element::line(-90i16)),
            Element::line(-90i16),
            Element::radius(90i16),
        ],
        ThreeRollFigure::Pn => seq![
            Element::radius(90i16),
            Element::line(90i16),
            Element::combining(-1i32, Element::line(90i16)),
            Element::line(90i16),
            Element::radius(-135i16),
            Element::line(-45i16),
            Element::combining(1i32, Element::line(-45i16)),
            Element::line(-45i16),
            Element::radius(135i16),
            Element::line(90i16),
            Element::combining(0i32, Element::line(90i16)),
            Element::line(90i16),
            Element::radius(-90i16),
        ],
        ThreeRollFigure::Ipn => seq![
            Element::radius(-90i16),
            Element::line(90i16),
            Element::combining(-1i32, Element::line(90i16)),
            Element::line(90i16),
            Element::radius(-135i16),
            Element::invline(45i16),
            Element::combining(1i32, Element::invline(45i16)),
            Element::invline(45i16),
            Element::radius(135i16),
            Element::line(-90i16),
            Element::combining(0i32, Element::line(-90i16)),
            Element::line(-90i16),
            Element::radius(90i16),
        ],
        ThreeRollFigure::W => seq![
            Element::radius(45i16),
            Element::line(45i16),
            Element::combining(-1i32, Element::line(45i16)),
            Element::line(45i16),
            Element::radius(-135i16),
            Element::line(-90i16),
            Element::combining(1i32, Element::line(-90i16)),
            Element::line(-90i16),
            Element::radius(135i16),
            Element::line(45i16),
            Element::combining(0i32, Element::line(45i16)),
            Element::line(45i16),
            Element::radius(-45i16),
        ],
        ThreeRollFigure::Iw => seq![
            Element::radius(-45i16),
            Element::line(-45i16),
            Element::combining(-1i32, Element::line(-45i16)),
            Element::line(-45i16),
            Element::radius(135i16),
            Element::line(90i16),
            Element::combining(1i32, Element::line(90i16)),
            Element::line(90i16),
            Element::radius(-135i16),
            Element::line(-45i16),
            Element::combining(0i32, Element::line(-45i16)),
            Element::line(-45i16),
            Element::radius(45i16),
        ],
        ThreeRollFigure::Gg => seq![
            Element::radius(45i16),
            Element::line(45i16),
            Element::combining(-1i32, Element::line(45i16)),
            Element::line(45i16),
            Element::radius(-270i16),
            Element::invline(45i16),
            Element::combining(1i32, Element::invline(45i16)),
            Element::invline(45i16),
            Element::radius(270i16),
            Element::line(45i16),
            Element::combining(0i32, Element::line(45i16)),
            Element::line(45i16),
            Element::radius(-45i16),
        ],
        ThreeRollFigure::Igg => seq![
            Element::radius(-45i16),
            Element::line(-45i16),
            Element::combining(-1i32, Element::line(-45i16)),
            Element::line(-45i16),
            Element::radius(270i16),
            Element::invline(-45i16),
            Element::combining(1i32, Element::invline(-45i16)),
            Element::invline(-45i16),
            Element::radius(-270i16),
            Element::line(-45i16),
            Element::combining(0i32, Element::line(-45i16)),
            Element::line(-45i16),
            Element::radius(45i16),
        ],
    }
}

pub open spec fn extra_skeleton(figure: ExtraFigure) -> Seq<Element> {
    match figure {
        ExtraFigure::Mm => seq![
            Element::radius(180i16),
            Element::radius(-180i16),
        ],
        ExtraFigure::Zb => seq![
            Element::radius(135i16),
            Element::invline(45i16),
            Element::combining(-1i32, Element::invline(45i16)),
            Element::invline(45i16),
            Element::radius(180i16),
            Element::line(-45i16),
            Element::combining(0i32, Element::line(-45i16)),
            Element::line(-45i16),
            Element::radius(45i16),
        ],
        ExtraFigure::Rzb => seq![
            Element::radius(135i16),
            Element::invline(45i16),
            Element::combining(-1i32, Element::invline(45i16)),
            Element::invline(45i16),
            Element::radius(-180i16),
            Element::line(-45i16),
            Element::combining(0i32, Element::line(-45i16)),
            Element::line(-45i16),
            Element::radius(45i16),
        ],
        ExtraFigure::Bz => seq![
            Element::radius(45i16),
            Element::line(45i16),
            Element::combining(-1i32, Element::line(45i16)),
            Element::line(45i16),
            Element::radius(180i16),
            Element::invline(-45i16),
            Element::combining(0i32, Element::invline(-45i16)),
            Element::invline(-45i16),
            Element::radius(135i16),
        ],
        ExtraFigure::Rbz => seq![
            Element::radius(45i16),
            Element::line(45i16),
            Element::combining(-1i32, Element::line(45i16)),
            Element::line(45i16),
            Element::radius(-180i16),
            Element::invline(-45i16),
            Element::combining(0i32, Element::invline(-45i16)),
            Element::invline(-45i16),
            Element::radius(135i16),
        ],
        ExtraFigure::Zy => seq![
            Element::radius(135i16),
            Element::invline(45i16),
            Element::combining(-1i32, Element::invline(45i16)),
            Element::invline(45i16),
            Element::radius(-225i16),
            Element::invline(-90i16),
            Element::combining(0i32, Element::invline(-90i16)),
            Element::invline(-90i16),
            Element::radius(90i16),
        ],
    }
}

pub open spec fn non_aresti_skeleton(figure: NonArestiFigure) -> Seq<Element> {
    match figure {
        NonArestiFigure::Oj => seq![
            Element::radius(90i16),
            Element { aux_angle: 90i16, roll_type: RollType::Standard, ..Element::line(90i16) },
            Element::radius(80i16),
            Element::combining(0i32, Element::invradius(20i16)),
            Element::invradius(170i16),
        ],
        NonArestiFigure::Ioj => seq![
            Element::radius(170i16),
            Element::combining(0i32, Element::invradius(20i16)),
            Element::invradius(80i16),
            Element { aux_angle: 90i16, roll_type: RollType::Standard, ..Element::line(-90i16) },
            Element::radius(90i16),
        ],
        NonArestiFigure::Mj => seq![
            Element::radius(90i16),
            Element { aux_angle: 90i16, roll_type: RollType::Standard, ..Element::line(90i16) },
            Element::radius(90i16),
        ],
        NonArestiFigure::Aj => seq![
            Element::radius(-90i16),
            Element { aux_angle: 90i16, roll_type: RollType::Standard, ..Element::line(-90i16) },
            Element::radius(-90i16),
        ],
    }
}

/// The canonical skeleton of a mnemonic, with its combining markers still
/// in place.
pub open spec fn skeleton(mnemonic: Mnemonic) -> Seq<Element> {
    match mnemonic {
        Mnemonic::SingleLine(figure) => single_line_skeleton(figure),
        Mnemonic::TwinLine(figure) => twin_line_skeleton(figure),
        Mnemonic::LoopFigure(figure) => loop_figure_skeleton(figure),
        Mnemonic::LoopLineCombo(figure) => loop_line_combo_skeleton(figure),
        Mnemonic::DoubleLoop(figure) => double_loop_skeleton(figure),
        Mnemonic::Humpty(figure) => humpty_skeleton(figure),
        Mnemonic::Hammerhead(figure) => hammerhead_skeleton(figure),
        Mnemonic::ThreeRoll(figure) => three_roll_skeleton(figure),
        Mnemonic::Extra(figure) => extra_skeleton(figure),
        Mnemonic::NonAresti(figure) => non_aresti_skeleton(figure),
    }
}

pub fn get_elements_for_single_line(figure: SingleLineFigure) -> (r: Vec<Element>)
    ensures
        r@ == single_line_skeleton(figure),
{
    let mut r: Vec<Element> = Vec::new();
    match figure {
        SingleLineFigure::Zero => {
            r.push(Element::line(0i16));
        },
        SingleLineFigure::D => {
            r.push(Element::radius(45i16));
            r.push(Element::line(45i16));
            r.push(Element::combining(0i32, Element::line(45i16)));
            r.push(Element::line(45i16));
            r.push(Element::radius(-45i16));
        },
        SingleLineFigure::Id => {
            r.push(Element::radius(-45i16));
            r.push(Element::line(-45i16));
            r.push(Element::combining(0i32, Element::line(-45i16)));
            r.push(Element::line(-45i16));
            r.push(Element::radius(45i16));
        },
        SingleLineFigure::V => {
            r.push(Element::radius(90i16));
            r.push(Element::line(90i16));
            r.push(Element::combining(0i32, Element::line(90i16)));
            r.push(Element::line(90i16));
            r.push(Element::radius(-90i16));
        },
        SingleLineFigure::Iv => {
            r.push(Element::radius(-90i16));
            r.push(Element::line(-90i16));
            r.push(Element::combining(0i32, Element::line(-90i16)));
            r.push(Element::line(-90i16));
            r.push(Element::radius(90i16));
        },
        SingleLineFigure::Z => {
            r.push(Element::radius(135i16));
            r.push(Element::line(45i16));
            r.push(Element::combining(0i32, Element::line(45i16)));
            r.push(Element::line(45i16));
            r.push(Element::radius(-135i16));
        },
        SingleLineFigure::Iz => {
            r.push(Element::radius(-135i16));
            r.push(Element::line(-45i16));
            r.push(Element::combining(0i32, Element::line(-45i16)));
            r.push(Element::line(-45i16));
            r.push(Element::radius(135i16));
        },
    }
    assert(r@ =~= single_line_skeleton(figure));
    r
}

pub fn get_elements_for_twin_line(figure: TwinLineFigure) -> (r: Vec<Element>)
    ensures
        r@ == twin_line_skeleton(figure),
{
    let mut r: Vec<Element> = Vec::new();
    match figure {
        TwinLineFigure::T => {
            r.push(Element::radius(45i16));
            r.push(Element::line(45i16));
            r.push(Element::radius(-135i16));
            r.push(Element::line(-90i16));
            r.push(Element::radius(90i16));
        },
        TwinLineFigure::It => {
            r.push(Element::radius(-45i16));
            r.push(Element::line(-45i16));
            r.push(Element::radius(135i16));
            r.push(Element::line(90i16));
            r.push(Element::radius(-90i16));
        },
        TwinLineFigure::K => {
            r.push(Element::radius(90i16));
            r.push(Element::line(90i16));
            r.push(Element::radius(-135i16));
            r.push(Element::line(-45i16));
            r.push(Element::radius(45i16));
        },
        TwinLineFigure::Ik => {
            r.push(Element::radius(-90i16));
            r.push(Element::line(-90i16));
            r.push(Element::radius(135i16));
            r.push(Element::line(45i16));
            r.push(Element::radius(-45i16));
        },
        TwinLineFigure::Zt => {
            r.push(Element::radius(135i16));
            r.push(Element::line(45i16));
            r.push(Element::radius(135i16));
            r.push(Element::line(-90i16));
            r.push(Element::radius(90i16));
        },
        TwinLineFigure::Izt => {
            r.push(Element::radius(-135i16));
            r.push(Element::line(-45i16));
            r.push(Element::radius(-135i16));
            r.push(Element::line(90i16));
            r.push(Element::radius(-90i16));
        },
        TwinLineFigure::Kz => {
            r.push(Element::radius(90i16));
            r.push(Element::line(90i16));
            r.push(Element::radius(-135i16));
            r.push(Element::line(-45i16));
            r.push(Element::radius(-135i16));
        },
        TwinLineFigure::Ikz => {
            r.push(Element::radius(-90i16));
            r.push(Element::line(-90i16));
            r.push(Element::radius(135i16));
            r.push(Element::line(45i16));
            r.push(Element::radius(135i16));
        },
    }
    assert(r@ =~= twin_line_skeleton(figure));
    r
}

pub fn get_elements_for_loop_figure(figure: LoopFigure) -> (r: Vec<Element>)
    ensures
        r@ == loop_figure_skeleton(figure),
{
    let mut r: Vec<Element> = Vec::new();
    match figure {
        LoopFigure::A => {
            r.push(Element::combining(-1i32, Element::line(0i16)));
            r.push(Element::radius(-180i16));
            r.push(Element::combining(0i32, Element::invline(0i16)));
        },
        LoopFigure::M => {
            r.push(Element::combining(-1i32, Element::line(0i16)));
            r.push(Element::radius(180i16));
            r.push(Element::combining(0i32, Element::invline(0i16)));
        },
        LoopFigure::O => {
            r.push(Element::radius(170i16));
            r.push(Element::combining(0i32, Element::invradius(20i16)));
            r.push(Element::invradius(170i16));
        },
        LoopFigure::Io => {
            r.push(Element::radius(-170i16));
            r.push(Element::combining(0i32, Element::invradius(-20i16)));
            r.push(Element::invradius(-170i16));
        },
        LoopFigure::Qo => {
            r.push(Element::radius(90i16));
            r.push(Element::line(90i16));
            r.push(Element::radius(90i16));
            r.push(Element::line(0i16));
            r.push(Element::radius(90i16));
            r.push(Element::line(-90i16));
            r.push(Element::radius(90i16));
            r.push(Element::line(0i16));
        },
        LoopFigure::Iqo => {
            r.push(Element::radius(-90i16));
            r.push(Element::line(-90i16));
            r.push(Element::radius(-90i16));
            r.push(Element::line(0i16));
            r.push(Element::radius(-90i16));
            r.push(Element::line(90i16));
            r.push(Element::radius(-90i16));
            r.push(Element::line(0i16));
        },
        LoopFigure::Dq => {
            r.push(Element::radius(45i16));
            r.push(Element::line(45i16));
            r.push(Element::combining(-1i32, Element::line(45i16)));
            r.push(Element::line(45i16));
            r.push(Element::radius(90i16));
            r.push(Element::invline(45i16));
            r.push(Element::radius(90i16));
            r.push(Element::invline(-45i16));
            r.push(Element::combining(0i32, Element::invline(-45i16)));
            r.push(Element::invline(-45i16));
            r.push(Element::radius(90i16));
            r.push(Element::line(-45i16));
            r.push(Element::radius(45i16));
        },
        LoopFigure::Idq => {
            r.push(Element::radius(-45i16));
            r.push(Element::line(-45i16));
            r.push(Element::combining(0i32, Element::line(-45i16)));
            r.push(Element::line(-45i16));
            r.push(Element::radius(-90i16));
            r.push(Element::invline(-45i16));
            r.push(Element::radius(-90i16));
            r.push(Element::invline(45i16));
            r.push(Element::combining(1i32, Element::invline(45i16)));
            r.push(Element::invline(45i16));
            r.push(Element::radius(-90i16));
            r.push(Element::line(45i16));
            r.push(Element::radius(-45i16));
        },
        LoopFigure::Qq => {
            r.push(Element::radius(45i16));
            r.push(Element::line(45i16));
            r.push(Element::radius(45i16));
            r.push(Element::line(90i16));
            r.push(Element::radius(45i16));
            r.push(Element::invline(45i16));
            r.push(Element::radius(45i16));
            r.push(Element::invline(0i16));
            r.push(Element::radius(45i16));
            r.push(Element::invline(-45i16));
            r.push(Element::radius(45i16));
            r.push(Element::line(-90i16));
            r.push(Element::radius(45i16));
            r.push(Element::line(-45i16));
            r.push(Element::radius(45i16));
        },
        LoopFigure::Iqq => {
            r.push(Element::radius(-45i16));
            r.push(Element::line(-45i16));
            r.push(Element::radius(-45i16));
            r.push(Element::line(-90i16));
            r.push(Element::radius(-45i16));
            r.push(Element::invline(-45i16));
            r.push(Element::radius(-45i16));
            r.push(Element::invline(0i16));
            r.push(Element::radius(-45i16));
            r.push(Element::invline(45i16));
            r.push(Element::radius(-45i16));
            r.push(Element::line(90i16));
            r.push(Element::radius(-45i16));
            r.push(Element::line(45i16));
            r.push(Element::radius(-45i16));
        },
    }
    assert(r@ =~= loop_figure_skeleton(figure));
    r
}

pub fn get_elements_for_loop_line_combo(figure: LoopLineComboFigure) -> (r: Vec<Element>)
    ensures
        r@ == loop_line_combo_skeleton(figure),
{
    let mut r: Vec<Element> = Vec::new();
    match figure {
        LoopLineComboFigure::C => {
            r.push(Element::radius(225i16));
            r.push(Element::invline(-45i16));
            r.push(Element::combining(0i32, Element::invline(-45i16)));
            r.push(Element::invline(-45i16));
            r.push(Element::radius(-45i16));
        },
        LoopLineComboFigure::Ic => {
            r.push(Element::radius(-225i16));
            r.push(Element::invline(45i16));
            r.push(Element::combining(0i32, Element::invline(45i16)));
            r.push(Element::invline(45i16));
            r.push(Element::radius(45i16));
        },
        LoopLineComboFigure::Rc => {
            r.push(Element::radius(45i16));
            r.push(Element::line(45i16));
            r.push(Element::combining(0i32, Element::line(45i16)));
            r.push(Element::line(45i16));
            r.push(Element::radius(-225i16));
        },
        LoopLineComboFigure::Irc => {
            r.push(Element::radius(-45i16));
            r.push(Element::line(-45i16));
            r.push(Element::combining(0i32, Element::line(-45i16)));
            r.push(Element::line(-45i16));
            r.push(Element::radius(225i16));
        },
        LoopLineComboFigure::G => {
            r.push(Element::radius(45i16));
            r.push(Element::line(45i16));
            r.push(Element::combining(-1i32, Element::line(45i16)));
            r.push(Element::line(45i16));
            r.push(Element::radius(-270i16));
            r.push(Element::invline(45i16));
            r.push(Element::combining(0i32, Element::invline(45i16)));
            r.push(Element::invline(45i16));
            r.push(Element::radius(45i16));
        },
        LoopLineComboFigure::Ig => {
            r.push(Element::radius(-45i16));
            r.push(Element::line(-45i16));
            r.push(Element::combining(-1i32, Element::line(-45i16)));
            r.push(Element::line(-45i16));
            r.push(Element::radius(270i16));
            r.push(Element::invline(-45i16));
            r.push(Element::combining(0i32, Element::invline(-45i16)));
            r.push(Element::invline(-45i16));
            r.push(Element::radius(-45i16));
        },
        LoopLineComboFigure::P => {
            r.push(Element::radius(270i16));
            r.push(Element::line(-90i16));
            r.push(Element::combining(0i32, Element::line(-90i16)));
            r.push(Element::line(-90i16));
            r.push(Element::radius(90i16));
        },
        LoopLineComboFigure::Ip => {
            r.push(Element::radius(-270i16));
            r.push(Element::line(90i16));
            r.push(Element::combining(0i32, Element::line(90i16)));
            r.push(Element::line(90i16));
            r.push(Element::radius(-90i16));
        },
        LoopLineComboFigure::Rp => {
            r.push(Element::radius(90i16));
            r.push(Element::line(90i16));
            r.push(Element::combining(-1i32, Element::line(90i16)));
            r.push(Element::line(90i16));
            r.push(Element::radius(270i16));
        },
        LoopLineComboFigure::Irp => {
            r.push(Element::radius(-90i16));
            r.push(Element::line(-90i16));
            r.push(Element::combining(-1i32, Element::line(-90i16)));
            r.push(Element::line(-90i16));
            r.push(Element::radius(-270i16));
        },
        LoopLineComboFigure::Q => {
            r.push(Element::combining(-1i32, Element::line(0i16)));
            r.push(Element::radius(315i16));
            r.push(Element::line(-45i16));
            r.push(Element::combining(0i32, Element::line(-45i16)));
            r.push(Element::line(-45i16));
            r.push(Element::radius(45i16));
        },
        LoopLineComboFigure::Iq => {
            r.push(Element::radius(-315i16));
            r.push(Element::line(45i16));
            r.push(Element::combining(0i32, Element::line(45i16)));
            r.push(Element::line(45i16));
            r.push(Element::radius(-45i16));
        },
        LoopLineComboFigure::Rq => {
            r.push(Element::radius(45i16));
            r.push(Element::line(45i16));
            r.push(Element::combining(-1i32, Element::line(45i16)));
            r.push(Element::line(45i16));
            r.push(Element::radius(315i16));
        },
        LoopLineComboFigure::Irq => {
            r.push(Element::radius(-45i16));
            r.push(Element::line(-45i16));
            r.push(Element::combining(-1i32, Element::line(-45i16)));
            r.push(Element::line(-45i16));
            r.push(Element::radius(-315i16));
        },
        LoopLineComboFigure::Y => {
            r.push(Element::radius(45i16));
            r.push(Element::line(45i16));
            r.push(Element::combining(-1i32, Element::line(45i16)));
            r.push(Element::line(45i16));
            r.push(Element::radius(225i16));
            r.push(Element::line(-90i16));
            r.push(Element::combining(0i32, Element::line(-90i16)));
            r.push(Element::line(-90i16));
            r.push(Element::radius(90i16));
        },
        LoopLineComboFigure::Iy => {
            r.push(Element::radius(-45i16));
            r.push(Element::line(-45i16));
            r.push(Element::combining(-1i32, Element::line(-45i16)));
            r.push(Element::line(-45i16));
            r.push(Element::radius(-225i16));
            r.push(Element::line(90i16));
            r.push(Element::combining(0i32, Element::line(90i16)));
            r.push(Element::line(90i16));
            r.push(Element::radius(-90i16));
        },
        LoopLineComboFigure::Ry => {
            r.push(Element::radius(90i16));
            r.push(Element::line(90i16));
            r.push(Element::combining(-1i32, Element::line(90i16)));
            r.push(Element::line(90i16));
            r.push(Element::radius(225i16));
            r.push(Element::line(-45i16));
            r.push(Element::combining(0i32, Element::line(-45i16)));
            r.push(Element::line(45i16));
            r.push(Element::radius(45i16));
        },
        LoopLineComboFigure::Iry => {
            r.push(Element::radius(-90i16));
            r.push(Element::line(-90i16));
            r.push(Element::combining(-1i32, Element::line(-90i16)));
            r.push(Element::line(-90i16));
            r.push(Element::radius(-225i16));
            r.push(Element::line(45i16));
            r.push(Element::combining(0i32, Element::line(45i16)));
            r.push(Element::line(45i16));
            r.push(Element::radius(-45i16));
        },
    }
    assert(r@ =~= loop_line_combo_skeleton(figure));
    r
}

pub fn get_elements_for_double_loop(figure: DoubleLoopFigure) -> (r: Vec<Element>)
    ensures
        r@ == double_loop_skeleton(figure),
{
    let mut r: Vec<Element> = Vec::new();
    match figure {
        DoubleLoopFigure::Cc => {
            r.push(Element::line(0i16));
            r.push(Element::combining(-1i32, Element::line(0i16)));
            r.push(Element::radius(225i16));
            r.push(Element::invline(-45i16));
            r.push(Element::combining(1i32, Element::invline(-45i16)));
            r.push(Element::invline(-45i16));
            r.push(Element::radius(-270i16));
            r.push(Element::line(-45i16));
            r.push(Element::combining(0i32, Element::line(-45i16)));
            r.push(Element::line(-45i16));
            r.push(Element::radius(45i16));
        },
        DoubleLoopFigure::Rcc => {
            r.push(Element::radius(45i16));
            r.push(Element::line(45i16));
            r.push(Element::combining(-1i32, Element::line(45i16)));
            r.push(Element::line(45i16));
            r.push(Element::radius(-270i16));
            r.push(Element::invline(45i16));
            r.push(Element::combining(1i32, Element::invline(45i16)));
            r.push(Element::invline(45i16));
            r.push(Element::radius(225i16));
            r.push(Element::combining(0i32, Element::line(0i16)));
            r.push(Element::line(0i16));
        },
        DoubleLoopFigure::Oo => {
            r.push(Element::radius(180i16));
            r.push(Element::radius(-360i16));
            r.push(Element::radius(180i16));
        },
        DoubleLoopFigure::Icc => {
            r.push(Element::line(0i16));
            r.push(Element::combining(-1i32, Element::line(0i16)));
            r.push(Element::radius(-225i16));
            r.push(Element::invline(45i16));
            r.push(Element::combining(1i32, Element::invline(45i16)));
            r.push(Element::invline(45i16));
            r.push(Element::radius(270i16));
            r.push(Element::line(45i16));
            r.push(Element::combining(0i32, Element::line(45i16)));
            r.push(Element::line(45i16));
            r.push(Element::radius(-45i16));
        },
        DoubleLoopFigure::Ircc => {
            r.push(Element::radius(-45i16));
            r.push(Element::line(-45i16));
            r.push(Element::combining(-1i32, Element::line(-45i16)));
            r.push(Element::line(-45i16));
            r.push(Element::line(270i16));
            r.push(Element::invline(-45i16));
            r.push(Element::combining(1i32, Element::invline(-45i16)));
            r.push(Element::invline(-45i16));
            r.push(Element::radius(-225i16));
            r.push(Element::combining(0i32, Element::line(0i16)));
            r.push(Element::line(0i16));
        },
        DoubleLoopFigure::Ioo => {
            r.push(Element::radius(-180i16));
            r.push(Element::radius(360i16));
            r.push(Element::radius(-180i16));
        },
        DoubleLoopFigure::Ooo => {
            r.push(Element::radius(360i16));
            r.push(Element::radius(-360i16));
        },
    }
    assert(r@ =~= double_loop_skeleton(figure));
    r
}

pub fn get_elements_for_humpty(figure: HumptyFigure) -> (r: Vec<Element>)
    ensures
        r@ == humpty_skeleton(figure),
{
    let mut r: Vec<Element> = Vec::new();
    match figure {
        HumptyFigure::B => {
            r.push(Element::radius(90i16));
            r.push(Element::line(90i16));
            r.push(Element::combining(-1i32, Element::line(90i16)));
            r.push(Element::line(90i16));
            r.push(Element::radius(180i16));
            r.push(Element::line(-90i16));
            r.push(Element::combining(0i32, Element::line(-90i16)));
            r.push(Element::line(-90i16));
            r.push(Element::radius(90i16));
        },
        HumptyFigure::Pb => {
            r.push(Element::radius(90i16));
            r.push(Element::line(90i16));
            r.push(Element::combining(-1i32, Element::line(90i16)));
            r.push(Element::line(90i16));
            r.push(Element::radius(-180i16));
            r.push(Element::line(-90i16));
            r.push(Element::combining(0i32, Element::line(-90i16)));
            r.push(Element::line(-90i16));
            r.push(Element::radius(90i16));
        },
        HumptyFigure::Bb => {
            r.push(Element::radius(90i16));
            r.push(Element::line(90i16));
            r.push(Element::combining(-1i32, Element::line(90i16)));
            r.push(Element::line(90i16));
            r.push(Element::radius(180i16));
            r.push(Element::line(-90i16));
            r.push(Element::combining(1i32, Element::line(-90i16)));
            r.push(Element::line(-90i16));
            r.push(Element::radius(180i16));
            r.push(Element::line(90i16));
            r.push(Element::combining(0i32, Element::line(90i16)));
            r.push(Element::line(90i16));
            r.push(Element::radius(-90i16));
        },
        HumptyFigure::Pbb => {
            r.push(Element::radius(90i16));
            r.push(Element::line(90i16));
            r.push(Element::combining(-1i32, Element::line(90i16)));
            r.push(Element::line(90i16));
            r.push(Element::radius(-180i16));
            r.push(Element::line(-90i16));
            r.push(Element::combining(1i32, Element::line(-90i16)));
            r.push(Element::line(-90i16));
            r.push(Element::radius(180i16));
            r.push(Element::line(90i16));
            r.push(Element::combining(0i32, Element::line(90i16)));
            r.push(Element::line(90i16));
            r.push(Element::radius(-90i16));
        },
        HumptyFigure::Db => {
            r.push(Element::radius(45i16));
            r.push(Element::line(45i16));
            r.push(Element::combining(-1i32, Element::line(45i16)));
            r.push(Element::line(90i16));
            r.push(Element::radius(180i16));
            r.push(Element::invline(-45i16));
            r.push(Element::combining(0i32, Element::invline(-45i16)));
            r.push(Element::invline(-45i16));
            r.push(Element::radius(-45i16));
        },
        HumptyFigure::Rdb => {
            r.push(Element::radius(45i16));
            r.push(Element::line(45i16));
            r.push(Element::combining(-1i32, Element::line(45i16)));
            r.push(Element::line(90i16));
            r.push(Element::radius(-180i16));
            r.push(Element::invline(-45i16));
            r.push(Element::combining(0i32, Element::invline(-45i16)));
            r.push(Element::invline(-45i16));
            r.push(Element::radius(-45i16));
        },
    }
    assert(r@ =~= humpty_skeleton(figure));
    r
}

pub fn get_elements_for_hammerhead(figure: HammerheadFigure) -> (r: Vec<Element>)
    ensures
        r@ == hammerhead_skeleton(figure),
{
    let mut r: Vec<Element> = Vec::new();
    match figure {
        HammerheadFigure::H => {
            r.push(Element::radius(90i16));
            r.push(Element::line(90i16));
            r.push(Element::combining(-1i32, Element::line(90i16)));
            r.push(Element::line(90i16));
            r.push(Element::stall(180i16, 0i16));
            r.push(Element::line(-90i16));
            r.push(Element::combining(0i32, Element::line(-90i16)));
            r.push(Element::line(-90i16));
            r.push(Element::radius(90i16));
        },
        HammerheadFigure::Dh => {
            r.push(Element::radius(45i16));
            r.push(Element::line(45i16));
            r.push(Element::combining(-1i32, Element::line(45i16)));
            r.push(Element::line(45i16));
            r.push(Element::radius(45i16));
            r.push(Element::line(90i16));
            r.push(Element::combining(1i32, Element::line(90i16)));
            r.push(Element::line(90i16));
            r.push(Element::stall(180i16, 0i16));
            r.push(Element::line(-90i16));
            r.push(Element::combining(0i32, Element::line(-90i16)));
            r.push(Element::line(-90i16));
            r.push(Element::radius(90i16));
        },
        HammerheadFigure::Hd => {
            r.push(Element::radius(90i16));
            r.push(Element::line(90i16));
            r.push(Element::combining(-1i32, Element::line(90i16)));
            r.push(Element::line(90i16));
            r.push(Element::stall(180i16, 0i16));
            r.push(Element::line(-90i16));
            r.push(Element::combining(1i32, Element::line(-90i16)));
            r.push(Element::line(-90i16));
            r.push(Element::radius(45i16));
            r.push(Element::line(-45i16));
            r.push(Element::combining(0i32, Element::line(-45i16)));
            r.push(Element::line(-45i16));
            r.push(Element::radius(45i16));
        },
        HammerheadFigure::Dhd => {
            r.push(Element::radius(45i16));
            r.push(Element::line(45i16));
            r.push(Element::combining(-1i32, Element::line(45i16)));
            r.push(Element::line(45i16));
            r.push(Element::radius(45i16));
            r.push(Element::line(90i16));
            r.push(Element::combining(1i32, Element::line(90i16)));
            r.push(Element::line(90i16));
            r.push(Element::stall(180i16, 0i16));
            r.push(Element::line(-90i16));
            r.push(Element::combining(2i32, Element::line(-90i16)));
            r.push(Element::line(-90i16));
            r.push(Element::radius(45i16));
            r.push(Element::line(-45i16));
            r.push(Element::combining(0i32, Element::line(-45i16)));
            r.push(Element::line(-45i16));
            r.push(Element::radius(45i16));
        },
        HammerheadFigure::Ta => {
            r.push(Element::radius(90i16));
            r.push(Element::line(90i16));
            r.push(Element::combining(-1i32, Element::line(90i16)));
            r.push(Element::line(90i16));
            r.push(Element::stall(0i16, -180i16));
            r.push(Element::line(-90i16));
            r.push(Element::combining(0i32, Element::line(-90i16)));
            r.push(Element::line(-90i16));
            r.push(Element::radius(90i16));
        },
        HammerheadFigure::Ita => {
            r.push(Element::radius(90i16));
            r.push(Element::line(90i16));
            r.push(Element::combining(-1i32, Element::line(90i16)));
            r.push(Element::line(90i16));
            r.push(Element::stall(0i16, 180i16));
            r.push(Element::line(-90i16));
            r.push(Element::combining(0i32, Element::line(-90i16)));
            r.push(Element::line(-90i16));
            r.push(Element::radius(90i16));
        },
    }
    assert(r@ =~= hammerhead_skeleton(figure));
    r
}

pub fn get_elements_for_three_roll(figure: ThreeRollFigure) -> (r: Vec<Element>)
    ensures
        r@ == three_roll_skeleton(figure),
{
    let mut r: Vec<Element> = Vec::new();
    match figure {
        ThreeRollFigure::N => {
            r.push(Element::radius(90i16));
            r.push(Element::line(90i16));
            r.push(Element::combining(-1i32, Element::line(90i16)));
            r.push(Element::line(90i16));
            r.push(Element::radius(135i16));
            r.push(Element::invline(-45i16));
            r.push(Element::combining(1i32, Element::invline(-45i16)));
            r.push(Element::invline(-45i16));
            r.push(Element::radius(-135i16));
            r.push(Element::line(90i16));
            r.push(Element::combining(0i32, Element::line(90i16)));
            r.push(Element::line(90i16));
            r.push(Element::radius(-90i16));
        },
        ThreeRollFigure::In => {
            r.push(Element::radius(-90i16));
            r.push(Element::line(-90i16));
            r.push(Element::combining(-1i32, Element::line(-90i16)));
            r.push(Element::line(-90i16));
            r.push(Element::radius(135i16));
            r.push(Element::line(45i16));
            r.push(Element::combining(1i32, Element::line(45i16)));
            r.push(Element::line(45i16));
            r.push(Element::radius(-135i16));
            r.push(Element::line(-90i16));
            r.push(Element::combining(0i32, Element::line(-90i16)));
            r.push(Element::line(-90i16));
            r.push(Element::radius(90i16));
        },
        ThreeRollFigure::Pn => {
            r.push(Element::radius(90i16));
            r.push(Element::line(90i16));
            r.push(Element::combining(-1i32, Element::line(90i16)));
            r.push(Element::line(90i16));
            r.push(Element::radius(-135i16));
            r.push(Element::line(-45i16));
            r.push(Element::combining(1i32, Element::line(-45i16)));
            r.push(Element::line(-45i16));
            r.push(Element::radius(135i16));
            r.push(Element::line(90i16));
            r.push(Element::combining(0i32, Element::line(90i16)));
            r.push(Element::line(90i16));
            r.push(Element::radius(-90i16));
        },
        ThreeRollFigure::Ipn => {
            r.push(Element::radius(-90i16));
            r.push(Element::line(90i16));
            r.push(Element::combining(-1i32, Element::line(90i16)));
            r.push(Element::line(90i16));
            r.push(Element::radius(-135i16));
            r.push(Element::invline(45i16));
            r.push(Element::combining(1i32, Element::invline(45i16)));
            r.push(Element::invline(45i16));
            r.push(Element::radius(135i16));
            r.push(Element::line(-90i16));
            r.push(Element::combining(0i32, Element::line(-90i16)));
            r.push(Element::line(-90i16));
            r.push(Element::radius(90i16));
        },
        ThreeRollFigure::W => {
            r.push(Element::radius(45i16));
            r.push(Element::line(45i16));
            r.push(Element::combining(-1i32, Element::line(45i16)));
            r.push(Element::line(45i16));
            r.push(Element::radius(-135i16));
            r.push(Element::line(-90i16));
            r.push(Element::combining(1i32, Element::line(-90i16)));
            r.push(Element::line(-90i16));
            r.push(Element::radius(135i16));
            r.push(Element::line(45i16));
            r.push(Element::combining(0i32, Element::line(45i16)));
            r.push(Element::line(45i16));
            r.push(Element::radius(-45i16));
        },
        ThreeRollFigure::Iw => {
            r.push(Element::radius(-45i16));
            r.push(Element::line(-45i16));
            r.push(Element::combining(-1i32, Element::line(-45i16)));
            r.push(Element::line(-45i16));
            r.push(Element::radius(135i16));
            r.push(Element::line(90i16));
            r.push(Element::combining(1i32, Element::line(90i16)));
            r.push(Element::line(90i16));
            r.push(Element::radius(-135i16));
            r.push(Element::line(-45i16));
            r.push(Element::combining(0i32, Element::line(-45i16)));
            r.push(Element::line(-45i16));
            r.push(Element::radius(45i16));
        },
        ThreeRollFigure::Gg => {
            r.push(Element::radius(45i16));
            r.push(Element::line(45i16));
            r.push(Element::combining(-1i32, Element::line(45i16)));
            r.push(Element::line(45i16));
            r.push(Element::radius(-270i16));
            r.push(Element::invline(45i16));
            r.push(Element::combining(1i32, Element::invline(45i16)));
            r.push(Element::invline(45i16));
            r.push(Element::radius(270i16));
            r.push(Element::line(45i16));
            r.push(Element::combining(0i32, Element::line(45i16)));
            r.push(Element::line(45i16));
            r.push(Element::radius(-45i16));
        },
        ThreeRollFigure::Igg => {
            r.push(Element::radius(-45i16));
            r.push(Element::line(-45i16));
            r.push(Element::combining(-1i32, Element::line(-45i16)));
            r.push(Element::line(-45i16));
            r.push(Element::radius(270i16));
            r.push(Element::invline(-45i16));
            r.push(Element::combining(1i32, Element::invline(-45i16)));
            r.push(Element::invline(-45i16));
            r.push(Element::radius(-270i16));
            r.push(Element::line(-45i16));
            r.push(Element::combining(0i32, Element::line(-45i16)));
            r.push(Element::line(-45i16));
            r.push(Element::radius(45i16));
        },
    }
    assert(r@ =~= three_roll_skeleton(figure));
    r
}

pub fn get_elements_for_extra(figure: ExtraFigure) -> (r: Vec<Element>)
    ensures
        r@ == extra_skeleton(figure),
{
    let mut r: Vec<Element> = Vec::new();
    match figure {
        ExtraFigure::Mm => {
            r.push(Element::radius(180i16));
            r.push(Element::radius(-180i16));
        },
        ExtraFigure::Zb => {
            r.push(Element::radius(135i16));
            r.push(Element::invline(45i16));
            r.push(Element::combining(-1i32, Element::invline(45i16)));
            r.push(Element::invline(45i16));
            r.push(Element::radius(180i16));
            r.push(Element::line(-45i16));
            r.push(Element::combining(0i32, Element::line(-45i16)));
            r.push(Element::line(-45i16));
            r.push(Element::radius(45i16));
        },
        ExtraFigure::Rzb => {
            r.push(Element::radius(135i16));
            r.push(Element::invline(45i16));
            r.push(Element::combining(-1i32, Element::invline(45i16)));
            r.push(Element::invline(45i16));
            r.push(Element::radius(-180i16));
            r.push(Element::line(-45i16));
            r.push(Element::combining(0i32, Element::line(-45i16)));
            r.push(Element::line(-45i16));
            r.push(Element::radius(45i16));
        },
        ExtraFigure::Bz => {
            r.push(Element::radius(45i16));
            r.push(Element::line(45i16));
            r.push(Element::combining(-1i32, Element::line(45i16)));
            r.push(Element::line(45i16));
            r.push(Element::radius(180i16));
            r.push(Element::invline(-45i16));
            r.push(Element::combining(0i32, Element::invline(-45i16)));
            r.push(Element::invline(-45i16));
            r.push(Element::radius(135i16));
        },
        ExtraFigure::Rbz => {
            r.push(Element::radius(45i16));
            r.push(Element::line(45i16));
            r.push(Element::combining(-1i32, Element::line(45i16)));
            r.push(Element::line(45i16));
            r.push(Element::radius(-180i16));
            r.push(Element::invline(-45i16));
            r.push(Element::combining(0i32, Element::invline(-45i16)));
            r.push(Element::invline(-45i16));
            r.push(Element::radius(135i16));
        },
        ExtraFigure::Zy => {
            r.push(Element::radius(135i16));
            r.push(Element::invline(45i16));
            r.push(Element::combining(-1i32, Element::invline(45i16)));
            r.push(Element::invline(45i16));
            r.push(Element::radius(-225i16));
            r.push(Element::invline(-90i16));
            r.push(Element::combining(0i32, Element::invline(-90i16)));
            r.push(Element::invline(-90i16));
            r.push(Element::radius(90i16));
        },
    }
    assert(r@ =~= extra_skeleton(figure));
    r
}

pub fn get_elements_for_non_aresti(figure: NonArestiFigure) -> (r: Vec<Element>)
    ensures
        r@ == non_aresti_skeleton(figure),
{
    let mut r: Vec<Element> = Vec::new();
    match figure {
        NonArestiFigure::Oj => {
            r.push(Element::radius(90i16));
            r.push(Element { aux_angle: 90i16, roll_type: RollType::Standard, ..Element::line(90i16) });
            r.push(Element::radius(80i16));
            r.push(Element::combining(0i32, Element::invradius(20i16)));
            r.push(Element::invradius(170i16));
        },
        NonArestiFigure::Ioj => {
            r.push(Element::radius(170i16));
            r.push(Element::combining(0i32, Element::invradius(20i16)));
            r.push(Element::invradius(80i16));
            r.push(Element { aux_angle: 90i16, roll_type: RollType::Standard, ..Element::line(-90i16) });
            r.push(Element::radius(90i16));
        },
        NonArestiFigure::Mj => {
            r.push(Element::radius(90i16));
            r.push(Element { aux_angle: 90i16, roll_type: RollType::Standard, ..Element::line(90i16) });
            r.push(Element::radius(90i16));
        },
        NonArestiFigure::Aj => {
            r.push(Element::radius(-90i16));
            r.push(Element { aux_angle: 90i16, roll_type: RollType::Standard, ..Element::line(-90i16) });
            r.push(Element::radius(-90i16));
        },
    }
    assert(r@ =~= non_aresti_skeleton(figure));
    r
}

/// The skeleton for any mnemonic, dispatched to its family table.
pub fn get_elements_for_mnemonic(mnemonic: Mnemonic) -> (r: Vec<Element>)
    ensures
        r@ == skeleton(mnemonic),
{
    match mnemonic {
        Mnemonic::SingleLine(figure) => get_elements_for_single_line(figure),
        Mnemonic::TwinLine(figure) => get_elements_for_twin_line(figure),
        Mnemonic::LoopFigure(figure) => get_elements_for_loop_figure(figure),
        Mnemonic::LoopLineCombo(figure) => get_elements_for_loop_line_combo(figure),
        Mnemonic::DoubleLoop(figure) => get_elements_for_double_loop(figure),
        Mnemonic::Humpty(figure) => get_elements_for_humpty(figure),
        Mnemonic::Hammerhead(figure) => get_elements_for_hammerhead(figure),
        Mnemonic::ThreeRoll(figure) => get_elements_for_three_roll(figure),
        Mnemonic::Extra(figure) => get_elements_for_extra(figure),
        Mnemonic::NonAresti(figure) => get_elements_for_non_aresti(figure),
    }
}

pub open spec fn spec_lookup_mnemonic_1(c0: char) -> Option<Mnemonic> {
    if c0 == '0' {
        Some(Mnemonic::SingleLine(SingleLineFigure::Zero))
    } else if c0 == 'a' {
        Some(Mnemonic::LoopFigure(LoopFigure::A))
    } else if c0 == 'b' {
        Some(Mnemonic::Humpty(HumptyFigure::B))
    } else if c0 == 'c' {
        Some(Mnemonic::LoopLineCombo(LoopLineComboFigure::C))
    } else if c0 == 'd' {
        Some(Mnemonic::SingleLine(SingleLineFigure::D))
    } else if c0 == 'g' {
        Some(Mnemonic::LoopLineCombo(LoopLineComboFigure::G))
    } else if c0 == 'h' {
        Some(Mnemonic::Hammerhead(HammerheadFigure::H))
    } else if c0 == 'k' {
        Some(Mnemonic::TwinLine(TwinLineFigure::K))
    } else if c0 == 'm' {
        Some(Mnemonic::LoopFigure(LoopFigure::M))
    } else if c0 == 'n' {
        Some(Mnemonic::ThreeRoll(ThreeRollFigure::N))
    } else if c0 == 'o' {
        Some(Mnemonic::LoopFigure(LoopFigure::O))
    } else if c0 == 'p' {
        Some(Mnemonic::LoopLineCombo(LoopLineComboFigure::P))
    } else if c0 == 'q' {
        Some(Mnemonic::LoopLineCombo(LoopLineComboFigure::Q))
    } else if c0 == 't' {
        Some(Mnemonic::TwinLine(TwinLineFigure::T))
    } else if c0 == 'v' {
        Some(Mnemonic::SingleLine(SingleLineFigure::V))
    } else if c0 == 'w' {
        Some(Mnemonic::ThreeRoll(ThreeRollFigure::W))
    } else if c0 == 'y' {
        Some(Mnemonic::LoopLineCombo(LoopLineComboFigure::Y))
    } else if c0 == 'z' {
        Some(Mnemonic::SingleLine(SingleLineFigure::Z))
    } else {
        None
    }
}

pub open spec fn spec_lookup_mnemonic_2(c0: char, c1: char) -> Option<Mnemonic> {
    if c0 == 'a' && c1 == 'j' {
        Some(Mnemonic::NonAresti(NonArestiFigure::Aj))
    } else if c0 == 'b' && c1 == 'b' {
        Some(Mnemonic::Humpty(HumptyFigure::Bb))
    } else if c0 == 'b' && c1 == 'z' {
        Some(Mnemonic::Extra(ExtraFigure::Bz))
    } else if c0 == 'c' && c1 == 'c' {
        Some(Mnemonic::DoubleLoop(DoubleLoopFigure::Cc))
    } else if c0 == 'd' && c1 == 'b' {
        Some(Mnemonic::Humpty(HumptyFigure::Db))
    } else if c0 == 'd' && c1 == 'h' {
        Some(Mnemonic::Hammerhead(HammerheadFigure::Dh))
    } else if c0 == 'd' && c1 == 'q' {
        Some(Mnemonic::LoopFigure(LoopFigure::Dq))
    } else if c0 == 'g' && c1 == 'g' {
        Some(Mnemonic::ThreeRoll(ThreeRollFigure::Gg))
    } else if c0 == 'h' && c1 == 'd' {
        Some(Mnemonic::Hammerhead(HammerheadFigure::Hd))
    } else if c0 == 'i' && c1 == 'c' {
        Some(Mnemonic::LoopLineCombo(LoopLineComboFigure::Ic))
    } else if c0 == 'i' && c1 == 'd' {
        Some(Mnemonic::SingleLine(SingleLineFigure::Id))
    } else if c0 == 'i' && c1 == 'g' {
        Some(Mnemonic::LoopLineCombo(LoopLineComboFigure::Ig))
    } else if c0 == 'i' && c1 == 'k' {
        Some(Mnemonic::TwinLine(TwinLineFigure::Ik))
    } else if c0 == 'i' && c1 == 'n' {
        Some(Mnemonic::ThreeRoll(ThreeRollFigure::In))
    } else if c0 == 'i' && c1 == 'o' {
        Some(Mnemonic::LoopFigure(LoopFigure::Io))
    } else if c0 == 'i' && c1 == 'p' {
        Some(Mnemonic::LoopLineCombo(LoopLineComboFigure::Ip))
    } else if c0 == 'i' && c1 == 'q' {
        Some(Mnemonic::LoopLineCombo(LoopLineComboFigure::Iq))
    } else if c0 == 'i' && c1 == 't' {
        Some(Mnemonic::TwinLine(TwinLineFigure::It))
    } else if c0 == 'i' && c1 == 'v' {
        Some(Mnemonic::SingleLine(SingleLineFigure::Iv))
    } else if c0 == 'i' && c1 == 'w' {
        Some(Mnemonic::ThreeRoll(ThreeRollFigure::Iw))
    } else if c0 == 'i' && c1 == 'y' {
        Some(Mnemonic::LoopLineCombo(LoopLineComboFigure::Iy))
    } else if c0 == 'i' && c1 == 'z' {
        Some(Mnemonic::SingleLine(SingleLineFigure::Iz))
    } else if c0 == 'k' && c1 == 'z' {
        Some(Mnemonic::TwinLine(TwinLineFigure::Kz))
    } else if c0 == 'm' && c1 == 'j' {
        Some(Mnemonic::NonAresti(NonArestiFigure::Mj))
    } else if c0 == 'm' && c1 == 'm' {
        Some(Mnemonic::Extra(ExtraFigure::Mm))
    } else if c0 == 'o' && c1 == 'j' {
        Some(Mnemonic::NonAresti(NonArestiFigure::Oj))
    } else if c0 == 'o' && c1 == 'o' {
        Some(Mnemonic::DoubleLoop(DoubleLoopFigure::Oo))
    } else if c0 == 'p' && c1 == 'b' {
        Some(Mnemonic::Humpty(HumptyFigure::Pb))
    } else if c0 == 'p' && c1 == 'n' {
        Some(Mnemonic::ThreeRoll(ThreeRollFigure::Pn))
    } else if c0 == 'q' && c1 == 'o' {
        Some(Mnemonic::LoopFigure(LoopFigure::Qo))
    } else if c0 == 'q' && c1 == 'q' {
        Some(Mnemonic::LoopFigure(LoopFigure::Qq))
    } else if c0 == 'r' && c1 == 'c' {
        Some(Mnemonic::LoopLineCombo(LoopLineComboFigure::Rc))
    } else if c0 == 'r' && c1 == 'p' {
        Some(Mnemonic::LoopLineCombo(LoopLineComboFigure::Rp))
    } else if c0 == 'r' && c1 == 'q' {
        Some(Mnemonic::LoopLineCombo(LoopLineComboFigure::Rq))
    } else if c0 == 'r' && c1 == 'y' {
        Some(Mnemonic::LoopLineCombo(LoopLineComboFigure::Ry))
    } else if c0 == 't' && c1 == 'a' {
        Some(Mnemonic::Hammerhead(HammerheadFigure::Ta))
    } else if c0 == 'z' && c1 == 'b' {
        Some(Mnemonic::Extra(ExtraFigure::Zb))
    } else if c0 == 'z' && c1 == 't' {
        Some(Mnemonic::TwinLine(TwinLineFigure::Zt))
    } else if c0 == 'z' && c1 == 'y' {
        Some(Mnemonic::Extra(ExtraFigure::Zy))
    } else {
        None
    }
}

pub open spec fn spec_lookup_mnemonic_3(c0: char, c1: char, c2: char) -> Option<Mnemonic> {
    if c0 == 'd' && c1 == 'h' && c2 == 'd' {
        Some(Mnemonic::Hammerhead(HammerheadFigure::Dhd))
    } else if c0 == 'i' && c1 == 'c' && c2 == 'c' {
        Some(Mnemonic::DoubleLoop(DoubleLoopFigure::Icc))
    } else if c0 == 'i' && c1 == 'd' && c2 == 'q' {
        Some(Mnemonic::LoopFigure(LoopFigure::Idq))
    } else if c0 == 'i' && c1 == 'g' && c2 == 'g' {
        Some(Mnemonic::ThreeRoll(ThreeRollFigure::Igg))
    } else if c0 == 'i' && c1 == 'k' && c2 == 'z' {
        Some(Mnemonic::TwinLine(TwinLineFigure::Ikz))
    } else if c0 == 'i' && c1 == 'o' && c2 == 'j' {
        Some(Mnemonic::NonAresti(NonArestiFigure::Ioj))
    } else if c0 == 'i' && c1 == 'o' && c2 == 'o' {
        Some(Mnemonic::DoubleLoop(DoubleLoopFigure::Ioo))
    } else if c0 == 'i' && c1 == 'p' && c2 == 'n' {
        Some(Mnemonic::ThreeRoll(ThreeRollFigure::Ipn))
    } else if c0 == 'i' && c1 == 'q' && c2 == 'o' {
        Some(Mnemonic::LoopFigure(LoopFigure::Iqo))
    } else if c0 == 'i' && c1 == 'q' && c2 == 'q' {
        Some(Mnemonic::LoopFigure(LoopFigure::Iqq))
    } else if c0 == 'i' && c1 == 'r' && c2 == 'c' {
        Some(Mnemonic::LoopLineCombo(LoopLineComboFigure::Irc))
    } else if c0 == 'i' && c1 == 'r' && c2 == 'p' {
        Some(Mnemonic::LoopLineCombo(LoopLineComboFigure::Irp))
    } else if c0 == 'i' && c1 == 'r' && c2 == 'q' {
        Some(Mnemonic::LoopLineCombo(LoopLineComboFigure::Irq))
    } else if c0 == 'i' && c1 == 'r' && c2 == 'y' {
        Some(Mnemonic::LoopLineCombo(LoopLineComboFigure::Iry))
    } else if c0 == 'i' && c1 == 't' && c2 == 'a' {
        Some(Mnemonic::Hammerhead(HammerheadFigure::Ita))
    } else if c0 == 'i' && c1 == 'z' && c2 == 't' {
        Some(Mnemonic::TwinLine(TwinLineFigure::Izt))
    } else if c0 == 'o' && c1 == 'o' && c2 == 'o' {
        Some(Mnemonic::DoubleLoop(DoubleLoopFigure::Ooo))
    } else if c0 == 'p' && c1 == 'b' && c2 == 'b' {
        Some(Mnemonic::Humpty(HumptyFigure::Pbb))
    } else if c0 == 'r' && c1 == 'b' && c2 == 'z' {
        Some(Mnemonic::Extra(ExtraFigure::Rbz))
    } else if c0 == 'r' && c1 == 'c' && c2 == 'c' {
        Some(Mnemonic::DoubleLoop(DoubleLoopFigure::Rcc))
    } else if c0 == 'r' && c1 == 'd' && c2 == 'b' {
        Some(Mnemonic::Humpty(HumptyFigure::Rdb))
    } else if c0 == 'r' && c1 == 'z' && c2 == 'b' {
        Some(Mnemonic::Extra(ExtraFigure::Rzb))
    } else {
        None
    }
}

pub open spec fn spec_lookup_mnemonic_4(c0: char, c1: char, c2: char, c3: char) -> Option<Mnemonic> {
    if c0 == 'i' && c1 == 'r' && c2 == 'c' && c3 == 'c' {
        Some(Mnemonic::DoubleLoop(DoubleLoopFigure::Ircc))
    } else {
        None
    }
}
/// The mnemonic spelled by 1 character, if any.
pub(crate) fn lookup_mnemonic_1(c0: char) -> (r: Option<Mnemonic>)
    ensures
        r == spec_lookup_mnemonic_1(c0),
{
    if c0 == '0' {
        Some(Mnemonic::SingleLine(SingleLineFigure::Zero))
    } else if c0 == 'a' {
        Some(Mnemonic::LoopFigure(LoopFigure::A))
    } else if c0 == 'b' {
        Some(Mnemonic::Humpty(HumptyFigure::B))
    } else if c0 == 'c' {
        Some(Mnemonic::LoopLineCombo(LoopLineComboFigure::C))
    } else if c0 == 'd' {
        Some(Mnemonic::SingleLine(SingleLineFigure::D))
    } else if c0 == 'g' {
        Some(Mnemonic::LoopLineCombo(LoopLineComboFigure::G))
    } else if c0 == 'h' {
        Some(Mnemonic::Hammerhead(HammerheadFigure::H))
    } else if c0 == 'k' {
        Some(Mnemonic::TwinLine(TwinLineFigure::K))
    } else if c0 == 'm' {
        Some(Mnemonic::LoopFigure(LoopFigure::M))
    } else if c0 == 'n' {
        Some(Mnemonic::ThreeRoll(ThreeRollFigure::N))
    } else if c0 == 'o' {
        Some(Mnemonic::LoopFigure(LoopFigure::O))
    } else if c0 == 'p' {
        Some(Mnemonic::LoopLineCombo(LoopLineComboFigure::P))
    } else if c0 == 'q' {
        Some(Mnemonic::LoopLineCombo(LoopLineComboFigure::Q))
    } else if c0 == 't' {
        Some(Mnemonic::TwinLine(TwinLineFigure::T))
    } else if c0 == 'v' {
        Some(Mnemonic::SingleLine(SingleLineFigure::V))
    } else if c0 == 'w' {
        Some(Mnemonic::ThreeRoll(ThreeRollFigure::W))
    } else if c0 == 'y' {
        Some(Mnemonic::LoopLineCombo(LoopLineComboFigure::Y))
    } else if c0 == 'z' {
        Some(Mnemonic::SingleLine(SingleLineFigure::Z))
    } else {
        None
    }
}

/// The mnemonic spelled by 2 characters, if any.
pub(crate) fn lookup_mnemonic_2(c0: char, c1: char) -> (r: Option<Mnemonic>)
    ensures
        r == spec_lookup_mnemonic_2(c0, c1),
{
    if c0 == 'a' && c1 == 'j' {
        Some(Mnemonic::NonAresti(NonArestiFigure::Aj))
    } else if c0 == 'b' && c1 == 'b' {
        Some(Mnemonic::Humpty(HumptyFigure::Bb))
    } else if c0 == 'b' && c1 == 'z' {
        Some(Mnemonic::Extra(ExtraFigure::Bz))
    } else if c0 == 'c' && c1 == 'c' {
        Some(Mnemonic::DoubleLoop(DoubleLoopFigure::Cc))
    } else if c0 == 'd' && c1 == 'b' {
        Some(Mnemonic::Humpty(HumptyFigure::Db))
    } else if c0 == 'd' && c1 == 'h' {
        Some(Mnemonic::Hammerhead(HammerheadFigure::Dh))
    } else if c0 == 'd' && c1 == 'q' {
        Some(Mnemonic::LoopFigure(LoopFigure::Dq))
    } else if c0 == 'g' && c1 == 'g' {
        Some(Mnemonic::ThreeRoll(ThreeRollFigure::Gg))
    } else if c0 == 'h' && c1 == 'd' {
        Some(Mnemonic::Hammerhead(HammerheadFigure::Hd))
    } else if c0 == 'i' && c1 == 'c' {
        Some(Mnemonic::LoopLineCombo(LoopLineComboFigure::Ic))
    } else if c0 == 'i' && c1 == 'd' {
        Some(Mnemonic::SingleLine(SingleLineFigure::Id))
    } else if c0 == 'i' && c1 == 'g' {
        Some(Mnemonic::LoopLineCombo(LoopLineComboFigure::Ig))
    } else if c0 == 'i' && c1 == 'k' {
        Some(Mnemonic::TwinLine(TwinLineFigure::Ik))
    } else if c0 == 'i' && c1 == 'n' {
        Some(Mnemonic::ThreeRoll(ThreeRollFigure::In))
    } else if c0 == 'i' && c1 == 'o' {
        Some(Mnemonic::LoopFigure(LoopFigure::Io))
    } else if c0 == 'i' && c1 == 'p' {
        Some(Mnemonic::LoopLineCombo(LoopLineComboFigure::Ip))
    } else if c0 == 'i' && c1 == 'q' {
        Some(Mnemonic::LoopLineCombo(LoopLineComboFigure::Iq))
    } else if c0 == 'i' && c1 == 't' {
        Some(Mnemonic::TwinLine(TwinLineFigure::It))
    } else if c0 == 'i' && c1 == 'v' {
        Some(Mnemonic::SingleLine(SingleLineFigure::Iv))
    } else if c0 == 'i' && c1 == 'w' {
        Some(Mnemonic::ThreeRoll(ThreeRollFigure::Iw))
    } else if c0 == 'i' && c1 == 'y' {
        Some(Mnemonic::LoopLineCombo(LoopLineComboFigure::Iy))
    } else if c0 == 'i' && c1 == 'z' {
        Some(Mnemonic::SingleLine(SingleLineFigure::Iz))
    } else if c0 == 'k' && c1 == 'z' {
        Some(Mnemonic::TwinLine(TwinLineFigure::Kz))
    } else if c0 == 'm' && c1 == 'j' {
        Some(Mnemonic::NonAresti(NonArestiFigure::Mj))
    } else if c0 == 'm' && c1 == 'm' {
        Some(Mnemonic::Extra(ExtraFigure::Mm))
    } else if c0 == 'o' && c1 == 'j' {
        Some(Mnemonic::NonAresti(NonArestiFigure::Oj))
    } else if c0 == 'o' && c1 == 'o' {
        Some(Mnemonic::DoubleLoop(DoubleLoopFigure::Oo))
    } else if c0 == 'p' && c1 == 'b' {
        Some(Mnemonic::Humpty(HumptyFigure::Pb))
    } else if c0 == 'p' && c1 == 'n' {
        Some(Mnemonic::ThreeRoll(ThreeRollFigure::Pn))
    } else if c0 == 'q' && c1 == 'o' {
        Some(Mnemonic::LoopFigure(LoopFigure::Qo))
    } else if c0 == 'q' && c1 == 'q' {
        Some(Mnemonic::LoopFigure(LoopFigure::Qq))
    } else if c0 == 'r' && c1 == 'c' {
        Some(Mnemonic::LoopLineCombo(LoopLineComboFigure::Rc))
    } else if c0 == 'r' && c1 == 'p' {
        Some(Mnemonic::LoopLineCombo(LoopLineComboFigure::Rp))
    } else if c0 == 'r' && c1 == 'q' {
        Some(Mnemonic::LoopLineCombo(LoopLineComboFigure::Rq))
    } else if c0 == 'r' && c1 == 'y' {
        Some(Mnemonic::LoopLineCombo(LoopLineComboFigure::Ry))
    } else if c0 == 't' && c1 == 'a' {
        Some(Mnemonic::Hammerhead(HammerheadFigure::Ta))
    } else if c0 == 'z' && c1 == 'b' {
        Some(Mnemonic::Extra(ExtraFigure::Zb))
    } else if c0 == 'z' && c1 == 't' {
        Some(Mnemonic::TwinLine(TwinLineFigure::Zt))
    } else if c0 == 'z' && c1 == 'y' {
        Some(Mnemonic::Extra(ExtraFigure::Zy))
    } else {
        None
    }
}

/// The mnemonic spelled by 3 characters, if any.
pub(crate) fn lookup_mnemonic_3(c0: char, c1: char, c2: char) -> (r: Option<Mnemonic>)
    ensures
        r == spec_lookup_mnemonic_3(c0, c1, c2),
{
    if c0 == 'd' && c1 == 'h' && c2 == 'd' {
        Some(Mnemonic::Hammerhead(HammerheadFigure::Dhd))
    } else if c0 == 'i' && c1 == 'c' && c2 == 'c' {
        Some(Mnemonic::DoubleLoop(DoubleLoopFigure::Icc))
    } else if c0 == 'i' && c1 == 'd' && c2 == 'q' {
        Some(Mnemonic::LoopFigure(LoopFigure::Idq))
    } else if c0 == 'i' && c1 == 'g' && c2 == 'g' {
        Some(Mnemonic::ThreeRoll(ThreeRollFigure::Igg))
    } else if c0 == 'i' && c1 == 'k' && c2 == 'z' {
        Some(Mnemonic::TwinLine(TwinLineFigure::Ikz))
    } else if c0 == 'i' && c1 == 'o' && c2 == 'j' {
        Some(Mnemonic::NonAresti(NonArestiFigure::Ioj))
    } else if c0 == 'i' && c1 == 'o' && c2 == 'o' {
        Some(Mnemonic::DoubleLoop(DoubleLoopFigure::Ioo))
    } else if c0 == 'i' && c1 == 'p' && c2 == 'n' {
        Some(Mnemonic::ThreeRoll(ThreeRollFigure::Ipn))
    } else if c0 == 'i' && c1 == 'q' && c2 == 'o' {
        Some(Mnemonic::LoopFigure(LoopFigure::Iqo))
    } else if c0 == 'i' && c1 == 'q' && c2 == 'q' {
        Some(Mnemonic::LoopFigure(LoopFigure::Iqq))
    } else if c0 == 'i' && c1 == 'r' && c2 == 'c' {
        Some(Mnemonic::LoopLineCombo(LoopLineComboFigure::Irc))
    } else if c0 == 'i' && c1 == 'r' && c2 == 'p' {
        Some(Mnemonic::LoopLineCombo(LoopLineComboFigure::Irp))
    } else if c0 == 'i' && c1 == 'r' && c2 == 'q' {
        Some(Mnemonic::LoopLineCombo(LoopLineComboFigure::Irq))
    } else if c0 == 'i' && c1 == 'r' && c2 == 'y' {
        Some(Mnemonic::LoopLineCombo(LoopLineComboFigure::Iry))
    } else if c0 == 'i' && c1 == 't' && c2 == 'a' {
        Some(Mnemonic::Hammerhead(HammerheadFigure::Ita))
    } else if c0 == 'i' && c1 == 'z' && c2 == 't' {
        Some(Mnemonic::TwinLine(TwinLineFigure::Izt))
    } else if c0 == 'o' && c1 == 'o' && c2 == 'o' {
        Some(Mnemonic::DoubleLoop(DoubleLoopFigure::Ooo))
    } else if c0 == 'p' && c1 == 'b' && c2 == 'b' {
        Some(Mnemonic::Humpty(HumptyFigure::Pbb))
    } else if c0 == 'r' && c1 == 'b' && c2 == 'z' {
        Some(Mnemonic::Extra(ExtraFigure::Rbz))
    } else if c0 == 'r' && c1 == 'c' && c2 == 'c' {
        Some(Mnemonic::DoubleLoop(DoubleLoopFigure::Rcc))
    } else if c0 == 'r' && c1 == 'd' && c2 == 'b' {
        Some(Mnemonic::Humpty(HumptyFigure::Rdb))
    } else if c0 == 'r' && c1 == 'z' && c2 == 'b' {
        Some(Mnemonic::Extra(ExtraFigure::Rzb))
    } else {
        None
    }
}

/// The mnemonic spelled by 4 characters, if any.
pub(crate) fn lookup_mnemonic_4(c0: char, c1: char, c2: char, c3: char) -> (r: Option<Mnemonic>)
    ensures
        r == spec_lookup_mnemonic_4(c0, c1, c2, c3),
{
    if c0 == 'i' && c1 == 'r' && c2 == 'c' && c3 == 'c' {
        Some(Mnemonic::DoubleLoop(DoubleLoopFigure::Ircc))
    } else {
        None
    }
}


/// A rolling turn's roll count in half-rolls.
pub open spec fn turn_half_rolls(rolls: TurnRollCount) -> int {
    match rolls {
        TurnRollCount::Zero => 0,
        TurnRollCount::One => 2,
        TurnRollCount::OneAndAHalf => 3,
        TurnRollCount::Two => 4,
        TurnRollCount::Three => 6,
        TurnRollCount::Four => 8,
    }
}

pub open spec fn spec_turn_element(main: int, aux: int) -> Element {
    Element {
        main_angle: main as i16,
        aux_angle: aux as i16,
        ..Element::new(ElementType::Turn)
    }
}

/// The elements of a rolling turn. The turn angle is 90 degrees times the
/// leading multiplier. Without rolls the turn is a single element; `j` and
/// `jo` carry the whole roll angle on one element, positive for inside and
/// negative for outside; `joi` and `jio` split the turn into per-roll
/// segments of alternating full rolls, and with one and a half rolls the
/// half roll completes on a trailing half-length segment.
pub open spec fn rolling_turn_elements(
    multiplier: u8,
    kind: TurnKind,
    rolls: TurnRollCount,
) -> Seq<Element> {
    let angle = 90 * (multiplier as int);
    let h = turn_half_rolls(rolls);
    if h == 0 {
        seq![spec_turn_element(angle, 0)]
    } else if kind == TurnKind::J {
        seq![spec_turn_element(angle, 180 * h)]
    } else if kind == TurnKind::Jo {
        seq![spec_turn_element(angle, -180 * h)]
    } else {
        let dir: int = if kind == TurnKind::Jio {
            1
        } else {
            -1
        };
        let seg = 2 * angle / h;
        if h == 3 {
            seq![spec_turn_element(seg, dir * 360), spec_turn_element(seg / 2, dir * -180)]
        } else {
            Seq::new(
                (h / 2) as nat,
                |i: int|
                    spec_turn_element(
                        seg,
                        if i % 2 == 0 {
                            dir * 360
                        } else {
                            dir * -360
                        },
                    ),
            )
        }
    }
}

/// Generates the rolling turn for a turn keyword, its optional leading
/// angle multiplier, and its roll count.
pub fn get_elements_for_rolling_turn(multiplier: u8, kind: TurnKind, rolls: TurnRollCount) -> (r:
    Vec<Element>)
    requires
        1 <= multiplier <= 4,
    ensures
        r@ == rolling_turn_elements(multiplier, kind, rolls),
{
    let turn_angle: i16 = 90 * (multiplier as i16);
    let h: i16 = match rolls {
        TurnRollCount::Zero => 0,
        TurnRollCount::One => 2,
        TurnRollCount::OneAndAHalf => 3,
        TurnRollCount::Two => 4,
        TurnRollCount::Three => 6,
        TurnRollCount::Four => 8,
    };
    let mut r: Vec<Element> = Vec::new();
    if h == 0 {
        r.push(
            Element {
                main_angle: turn_angle,
                aux_angle: 0,
                ..Element::new(ElementType::Turn)
            },
        );
    } else {
        match kind {
            TurnKind::J => {
                r.push(
                    Element {
                        main_angle: turn_angle,
                        aux_angle: 180 * h,
                        ..Element::new(ElementType::Turn)
                    },
                );
            },
            TurnKind::Jo => {
                r.push(
                    Element {
                        main_angle: turn_angle,
                        aux_angle: -180 * h,
                        ..Element::new(ElementType::Turn)
                    },
                );
            },
            _ => {
                let dir: i16 = match kind {
                    TurnKind::Jio => 1,
                    _ => -1,
                };
                let seg: i16 = (2 * turn_angle) / h;
                if h == 3 {
                    r.push(
                        Element {
                            main_angle: seg,
                            aux_angle: dir * 360,
                            ..Element::new(ElementType::Turn)
                        },
                    );
                    r.push(
                        Element {
                            main_angle: seg / 2,
                            aux_angle: dir * -180,
                            ..Element::new(ElementType::Turn)
                        },
                    );
                } else {
                    let count: i16 = h / 2;
                    let mut aux: i16 = dir * 360;
                    let mut i: i16 = 0;
                    while i < count
                        invariant
                            0 <= i <= count,
                            count == turn_half_rolls(rolls) / 2,
                            turn_half_rolls(rolls) != 3,
                            1 <= count <= 4,
                            seg as int == 2 * (90 * multiplier as int) / turn_half_rolls(rolls),
                            1 <= multiplier <= 4,
                            aux as int == if i % 2 == 0 {
                                (if kind == TurnKind::Jio { 1int } else { -1int }) * 360
                            } else {
                                (if kind == TurnKind::Jio { 1int } else { -1int }) * -360
                            },
                            kind != TurnKind::J && kind != TurnKind::Jo,
                            r@ =~= Seq::new(
                                i as nat,
                                |k: int|
                                    spec_turn_element(
                                        2 * (90 * multiplier as int) / turn_half_rolls(rolls),
                                        if k % 2 == 0 {
                                            (if kind == TurnKind::Jio { 1int } else { -1int }) * 360
                                        } else {
                                            (if kind == TurnKind::Jio { 1int } else { -1int }) * -360
                                        },
                                    ),
                            ),
                        decreases count - i,
                    {
                        r.push(
                            Element {
                                main_angle: seg,
                                aux_angle: aux,
                                ..Element::new(ElementType::Turn)
                            },
                        );
                        aux = -aux;
                        i = i + 1;
                        proof {
                            assert(r@ =~= Seq::new(
                                i as nat,
                                |k: int|
                                    spec_turn_element(
                                        2 * (90 * multiplier as int) / turn_half_rolls(rolls),
                                        if k % 2 == 0 {
                                            (if kind == TurnKind::Jio { 1int } else { -1int }) * 360
                                        } else {
                                            (if kind == TurnKind::Jio { 1int } else { -1int }) * -360
                                        },
                                    ),
                            ));
                        }
                    }
                }
            },
        }
    }
    assert(r@ =~= rolling_turn_elements(multiplier, kind, rolls));
    r
}

} // verus!
