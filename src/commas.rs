use vstd::prelude::*;

use crate::comma::Comma;

verus! {

/// 65-comma.
pub fn comma_65() -> (r: Comma)
    ensures
        r.monzo_spec() == seq![-103i16, 65i16],
{
    let r = Comma::from_monzo("65-comma", &[-103, 65]);
    assert(r.monzo_spec() =~= seq![-103i16, 65i16]);
    r
}

/// Pythagorean comma.
pub fn comma_pythagorean() -> (r: Comma)
    ensures
        r.monzo_spec() == seq![-19i16, 12i16],
{
    let r = Comma::from_monzo("Pythagorean comma", &[-19, 12]);
    assert(r.monzo_spec() =~= seq![-19i16, 12i16]);
    r
}

/// 41-comma.
pub fn comma_41() -> (r: Comma)
    ensures
        r.monzo_spec() == seq![65i16, 41i16],
{
    let r = Comma::from_monzo("41-comma", &[65, 41]);
    assert(r.monzo_spec() =~= seq![65i16, 41i16]);
    r
}

/// 94-comma.
pub fn comma_94() -> (r: Comma)
    ensures
        r.monzo_spec() == seq![149i16, 94i16],
{
    let r = Comma::from_monzo("94-comma", &[149, 94]);
    assert(r.monzo_spec() =~= seq![149i16, 94i16]);
    r
}

/// 200-comma, Pythagorean integer cents comma.
pub fn comma_200() -> (r: Comma)
    ensures
        r.monzo_spec() == seq![317i16, 200i16],
{
    let r = Comma::from_monzo("200-comma, Pythagorean integer cents comma", &[317, 200]);
    assert(r.monzo_spec() =~= seq![317i16, 200i16]);
    r
}

/// Mercator's comma, 53-comma.
pub fn comma_mercator() -> (r: Comma)
    ensures
        r.monzo_spec() == seq![-84i16, 53i16],
{
    let r = Comma::from_monzo("Mercator's comma, 53-comma", &[-84, 53]);
    assert(r.monzo_spec() =~= seq![-84i16, 53i16]);
    r
}

/// 51-Pythagorean comma.
pub fn comma_pythgorean_51() -> (r: Comma)
    ensures
        r.monzo_spec() == seq![-970i16, 612i16],
{
    let r = Comma::from_monzo("51-Pythagorean comma", &[-970, 612]);
    assert(r.monzo_spec() =~= seq![-970i16, 612i16]);
    r
}

/// small diesis, magic comma.
pub fn comma1() -> (r: Comma)
    ensures
        r.monzo_spec() == seq![-10i16, -1i16, 5i16],
{
    let r = Comma::from_monzo("small diesis, magic comma", &[-10, -1, 5]);
    assert(r.monzo_spec() =~= seq![-10i16, -1i16, 5i16]);
    r
}

/// 11-15-comma, hendecatonic comma.
pub fn comma2() -> (r: Comma)
    ensures
        r.monzo_spec() == seq![43i16, -11i16, -11i16],
{
    let r = Comma::from_monzo("11-15-comma, hendecatonic comma", &[43, -11, -11]);
    assert(r.monzo_spec() =~= seq![43i16, -11i16, -11i16]);
    r
}

/// minimal diesis, tetracot comma.
pub fn comma3() -> (r: Comma)
    ensures
        r.monzo_spec() == seq![5i16, -9i16, 4i16],
{
    let r = Comma::from_monzo("minimal diesis, tetracot comma", &[5, -9, 4]);
    assert(r.monzo_spec() =~= seq![5i16, -9i16, 4i16]);
    r
}

/// semaja.
pub fn comma4() -> (r: Comma)
    ensures
        r.monzo_spec() == seq![-33i16, -7i16, 19i16],
{
    let r = Comma::from_monzo("semaja", &[-33, -7, 19]);
    assert(r.monzo_spec() =~= seq![-33i16, -7i16, 19i16]);
    r
}

/// quanic comma.
pub fn comma5() -> (r: Comma)
    ensures
        r.monzo_spec() == seq![74i16, -54i16, 5i16],
{
    let r = Comma::from_monzo("quanic comma", &[74, -54, 5]);
    assert(r.monzo_spec() =~= seq![74i16, -54i16, 5i16]);
    r
}

/// roda.
pub fn comma6() -> (r: Comma)
    ensures
        r.monzo_spec() == seq![20i16, -17i16, 3i16],
{
    let r = Comma::from_monzo("roda", &[20, -17, 3]);
    assert(r.monzo_spec() =~= seq![20i16, -17i16, 3i16]);
    r
}

/// trisedodge comma.
pub fn comma7() -> (r: Comma)
    ensures
        r.monzo_spec() == seq![19i16, 10i16, -15i16],
{
    let r = Comma::from_monzo("trisedodge comma", &[19, 10, -15]);
    assert(r.monzo_spec() =~= seq![19i16, 10i16, -15i16]);
    r
}

/// maja.
pub fn comma8() -> (r: Comma)
    ensures
        r.monzo_spec() == seq![-3i16, -23i16, 17i16],
{
    let r = Comma::from_monzo("maja", &[-3, -23, 17]);
    assert(r.monzo_spec() =~= seq![-3i16, -23i16, 17i16]);
    r
}

/// satin comma.
pub fn comma9() -> (r: Comma)
    ensures
        r.monzo_spec() == seq![104i16, -70i16, 3i16],
{
    let r = Comma::from_monzo("satin comma", &[104, -70, 3]);
    assert(r.monzo_spec() =~= seq![104i16, -70i16, 3i16]);
    r
}

/// misneb.
pub fn comma10() -> (r: Comma)
    ensures
        r.monzo_spec() == seq![-57i16, 14i16, 15i16],
{
    let r = Comma::from_monzo("misneb", &[-57, 14, 15]);
    assert(r.monzo_spec() =~= seq![-57i16, 14i16, 15i16]);
    r
}

/// syntonic / Didymos / meantone comma.
pub fn comma_syntonic() -> (r: Comma)
    ensures
        r.monzo_spec() == seq![-4i16, 4i16, -1i16],
{
    let r = Comma::from_monzo("syntonic / Didymos / meantone comma", &[-4, 4, -1]);
    assert(r.monzo_spec() =~= seq![-4i16, 4i16, -1i16]);
    r
}

/// maquila comma.
pub fn comma12() -> (r: Comma)
    ensures
        r.monzo_spec() == seq![49i16, -6i16, -17i16],
{
    let r = Comma::from_monzo("maquila comma", &[49, -6, -17]);
    assert(r.monzo_spec() =~= seq![49i16, -6i16, -17i16]);
    r
}

/// diaschisma.
pub fn comma13() -> (r: Comma)
    ensures
        r.monzo_spec() == seq![11i16, -4i16, -2i16],
{
    let r = Comma::from_monzo("diaschisma", &[11, -4, -2]);
    assert(r.monzo_spec() =~= seq![11i16, -4i16, -2i16]);
    r
}

/// countermeantone comma.
pub fn comma14() -> (r: Comma)
    ensures
        r.monzo_spec() == seq![10i16, 23i16, -20i16],
{
    let r = Comma::from_monzo("countermeantone comma", &[10, 23, -20]);
    assert(r.monzo_spec() =~= seq![10i16, 23i16, -20i16]);
    r
}

/// ditonma.
pub fn comma15() -> (r: Comma)
    ensures
        r.monzo_spec() == seq![-27i16, -2i16, 13i16],
{
    let r = Comma::from_monzo("ditonma", &[-27, -2, 13]);
    assert(r.monzo_spec() =~= seq![-27i16, -2i16, 13i16]);
    r
}

/// misty comma.
pub fn comma16() -> (r: Comma)
    ensures
        r.monzo_spec() == seq![26i16, -12i16, -3i16],
{
    let r = Comma::from_monzo("misty comma", &[26, -12, -3]);
    assert(r.monzo_spec() =~= seq![26i16, -12i16, -3i16]);
    r
}

/// pental comma.
pub fn comma17() -> (r: Comma)
    ensures
        r.monzo_spec() == seq![-28i16, 25i16, -5i16],
{
    let r = Comma::from_monzo("pental comma", &[-28, 25, -5]);
    assert(r.monzo_spec() =~= seq![-28i16, 25i16, -5i16]);
    r
}

/// undim comma.
pub fn comma18() -> (r: Comma)
    ensures
        r.monzo_spec() == seq![41i16, -20i16, -4i16],
{
    let r = Comma::from_monzo("undim comma", &[41, -20, -4]);
    assert(r.monzo_spec() =~= seq![41i16, -20i16, -4i16]);
    r
}

/// graviton, gravity comma.
pub fn comma19() -> (r: Comma)
    ensures
        r.monzo_spec() == seq![-13i16, 17i16, -6i16],
{
    let r = Comma::from_monzo("graviton, gravity comma", &[-13, 17, -6]);
    assert(r.monzo_spec() =~= seq![-13i16, 17i16, -6i16]);
    r
}

/// majvam.
pub fn comma20() -> (r: Comma)
    ensures
        r.monzo_spec() == seq![40i16, 7i16, -22i16],
{
    let r = Comma::from_monzo("majvam", &[40, 7, -22]);
    assert(r.monzo_spec() =~= seq![40i16, 7i16, -22i16]);
    r
}

/// quartonic.
pub fn comma21() -> (r: Comma)
    ensures
        r.monzo_spec() == seq![3i16, -18i16, 11i16],
{
    let r = Comma::from_monzo("quartonic", &[3, -18, 11]);
    assert(r.monzo_spec() =~= seq![3i16, -18i16, 11i16]);
    r
}

/// untritonic comma.
pub fn comma22() -> (r: Comma)
    ensures
        r.monzo_spec() == seq![-51i16, 19i16, 9i16],
{
    let r = Comma::from_monzo("untritonic comma", &[-51, 19, 9]);
    assert(r.monzo_spec() =~= seq![-51i16, 19i16, 9i16]);
    r
}

/// medium semicomma, sensipent comma.
pub fn comma23() -> (r: Comma)
    ensures
        r.monzo_spec() == seq![2i16, 9i16, -7i16],
{
    let r = Comma::from_monzo("medium semicomma, sensipent comma", &[2, 9, -7]);
    assert(r.monzo_spec() =~= seq![2i16, 9i16, -7i16]);
    r
}

/// tertiosec comma.
pub fn comma24() -> (r: Comma)
    ensures
        r.monzo_spec() == seq![-89i16, 21i16, 24i16],
{
    let r = Comma::from_monzo("tertiosec comma", &[-89, 21, 24]);
    assert(r.monzo_spec() =~= seq![-89i16, 21i16, 24i16]);
    r
}

/// Würschmidt comma.
pub fn comma25() -> (r: Comma)
    ensures
        r.monzo_spec() == seq![17i16, 1i16, -8i16],
{
    let r = Comma::from_monzo("Würschmidt comma", &[17, 1, -8]);
    assert(r.monzo_spec() =~= seq![17i16, 1i16, -8i16]);
    r
}

/// counterhanson comma.
pub fn comma26() -> (r: Comma)
    ensures
        r.monzo_spec() == seq![-20i16, -24i16, 25i16],
{
    let r = Comma::from_monzo("counterhanson comma", &[-20, -24, 25]);
    assert(r.monzo_spec() =~= seq![-20i16, -24i16, 25i16]);
    r
}

/// semicomma, Fokker comma.
pub fn comma27() -> (r: Comma)
    ensures
        r.monzo_spec() == seq![-21i16, 3i16, 7i16],
{
    let r = Comma::from_monzo("semicomma, Fokker comma", &[-21, 3, 7]);
    assert(r.monzo_spec() =~= seq![-21i16, 3i16, 7i16]);
    r
}

/// escapade comma.
pub fn comma28() -> (r: Comma)
    ensures
        r.monzo_spec() == seq![32i16, -7i16, -9i16],
{
    let r = Comma::from_monzo("escapade comma", &[32, -7, -9]);
    assert(r.monzo_spec() =~= seq![32i16, -7i16, -9i16]);
    r
}

/// kleisma, semicomma majeur.
pub fn comma29() -> (r: Comma)
    ensures
        r.monzo_spec() == seq![-6i16, -5i16, 6i16],
{
    let r = Comma::from_monzo("kleisma, semicomma majeur", &[-6, -5, 6]);
    assert(r.monzo_spec() =~= seq![-6i16, -5i16, 6i16]);
    r
}

/// qintosec comma.
pub fn comma30() -> (r: Comma)
    ensures
        r.monzo_spec() == seq![47i16, -15i16, -10i16],
{
    let r = Comma::from_monzo("qintosec comma", &[47, -15, -10]);
    assert(r.monzo_spec() =~= seq![47i16, -15i16, -10i16]);
    r
}

/// 59-5-comma.
pub fn comma31() -> (r: Comma)
    ensures
        r.monzo_spec() == seq![137i16, 0i16, -59i16],
{
    let r = Comma::from_monzo("59-5-comma", &[137, 0, -59]);
    assert(r.monzo_spec() =~= seq![137i16, 0i16, -59i16]);
    r
}

/// unidecma.
pub fn comma32() -> (r: Comma)
    ensures
        r.monzo_spec() == seq![-7i16, 22i16, -12i16],
{
    let r = Comma::from_monzo("unidecma", &[-7, 22, -12]);
    assert(r.monzo_spec() =~= seq![-7i16, 22i16, -12i16]);
    r
}

/// mutt comma.
pub fn comma33() -> (r: Comma)
    ensures
        r.monzo_spec() == seq![-44i16, -3i16, 21i16],
{
    let r = Comma::from_monzo("mutt comma", &[-44, -3, 21]);
    assert(r.monzo_spec() =~= seq![-44i16, -3i16, 21i16]);
    r
}

/// amity comma.
pub fn comma34() -> (r: Comma)
    ensures
        r.monzo_spec() == seq![9i16, -13i16, 5i16],
{
    let r = Comma::from_monzo("amity comma", &[9, -13, 5]);
    assert(r.monzo_spec() =~= seq![9i16, -13i16, 5i16]);
    r
}

/// parakleisma.
pub fn comma35() -> (r: Comma)
    ensures
        r.monzo_spec() == seq![8i16, 14i16, -13i16],
{
    let r = Comma::from_monzo("parakleisma", &[8, 14, -13]);
    assert(r.monzo_spec() =~= seq![8i16, 14i16, -13i16]);
    r
}

/// gammic comma.
pub fn comma36() -> (r: Comma)
    ensures
        r.monzo_spec() == seq![-29i16, -11i16, 20i16],
{
    let r = Comma::from_monzo("gammic comma", &[-29, -11, 20]);
    assert(r.monzo_spec() =~= seq![-29i16, -11i16, 20i16]);
    r
}

/// squarschmidt comma.
pub fn comma37() -> (r: Comma)
    ensures
        r.monzo_spec() == seq![61i16, 4i16, -29i16],
{
    let r = Comma::from_monzo("squarschmidt comma", &[61, 4, -29]);
    assert(r.monzo_spec() =~= seq![61i16, 4i16, -29i16]);
    r
}

/// Huntian 15-cycle comma.
pub fn comma38() -> (r: Comma)
    ensures
        r.monzo_spec() == seq![168i16, -43i16, -43i16],
{
    let r = Comma::from_monzo("Huntian 15-cycle comma", &[168, -43, -43]);
    assert(r.monzo_spec() =~= seq![168i16, -43i16, -43i16]);
    r
}

/// 56-syntonic comma.
pub fn comma39() -> (r: Comma)
    ensures
        r.monzo_spec() == seq![-225i16, 224i16, -56i16],
{
    let r = Comma::from_monzo("56-syntonic comma", &[-225, 224, -56]);
    assert(r.monzo_spec() =~= seq![-225i16, 224i16, -56i16]);
    r
}

/// vulture comma.
pub fn comma40() -> (r: Comma)
    ensures
        r.monzo_spec() == seq![24i16, -21i16, 4i16],
{
    let r = Comma::from_monzo("vulture comma", &[24, -21, 4]);
    assert(r.monzo_spec() =~= seq![24i16, -21i16, 4i16]);
    r
}

/// lafa comma.
pub fn comma41() -> (r: Comma)
    ensures
        r.monzo_spec() == seq![77i16, -31i16, -12i16],
{
    let r = Comma::from_monzo("lafa comma", &[77, -31, -12]);
    assert(r.monzo_spec() =~= seq![77i16, -31i16, -12i16]);
    r
}

/// senga.
pub fn comma42() -> (r: Comma)
    ensures
        r.monzo_spec() == seq![1i16, -3i16, -2i16, 3i16],
{
    let r = Comma::from_monzo("senga", &[1, -3, -2, 3]);
    assert(r.monzo_spec() =~= seq![1i16, -3i16, -2i16, 3i16]);
    r
}

/// 23-21-comma.
pub fn comma43() -> (r: Comma)
    ensures
        r.monzo_spec() == seq![-101i16, 23i16, 0i16, 23i16],
{
    let r = Comma::from_monzo("23-21-comma", &[-101, 23, 0, 23]);
    assert(r.monzo_spec() =~= seq![-101i16, 23i16, 0i16, 23i16]);
    r
}

/// septimal / Archytas' comma, Leipziger Komma.
pub fn comma44() -> (r: Comma)
    ensures
        r.monzo_spec() == seq![6i16, -2i16, 0i16, -1i16],
{
    let r = Comma::from_monzo("septimal / Archytas' comma, Leipziger Komma", &[6, -2, 0, -1]);
    assert(r.monzo_spec() =~= seq![6i16, -2i16, 0i16, -1i16]);
    r
}

/// mandos.
pub fn comma45() -> (r: Comma)
    ensures
        r.monzo_spec() == seq![7i16, 5i16, -4i16, -2i16],
{
    let r = Comma::from_monzo("mandos", &[7, 5, -4, -2]);
    assert(r.monzo_spec() =~= seq![7i16, 5i16, -4i16, -2i16]);
    r
}

/// 33-7/5-comma.
pub fn comma46() -> (r: Comma)
    ensures
        r.monzo_spec() == seq![-16i16, 0i16, -33i16, 33i16],
{
    let r = Comma::from_monzo("33-7/5-comma", &[-16, 0, -33, 33]);
    assert(r.monzo_spec() =~= seq![-16i16, 0i16, -33i16, 33i16]);
    r
}

/// Huntian 35-cycle comma.
pub fn comma47() -> (r: Comma)
    ensures
        r.monzo_spec() == seq![277i16, 0i16, -5i16, 4i16, -54i16],
{
    let r = Comma::from_monzo("Huntian 35-cycle comma", &[277, 0, -5, 4, -54]);
    assert(r.monzo_spec() =~= seq![277i16, 0i16, -5i16, 4i16, -54i16]);
    r
}

/// blackjackisma.
pub fn comma48() -> (r: Comma)
    ensures
        r.monzo_spec() == seq![-10i16, 7i16, 8i16, -7i16],
{
    let r = Comma::from_monzo("blackjackisma", &[-10, 7, 8, -7]);
    assert(r.monzo_spec() =~= seq![-10i16, 7i16, 8i16, -7i16]);
    r
}

/// squalentine.
pub fn comma49() -> (r: Comma)
    ensures
        r.monzo_spec() == seq![-9i16, 3i16, -3i16, 4i16],
{
    let r = Comma::from_monzo("squalentine", &[-9, 3, -3, 4]);
    assert(r.monzo_spec() =~= seq![-9i16, 3i16, -3i16, 4i16]);
    r
}

/// keema.
pub fn comma50() -> (r: Comma)
    ensures
        r.monzo_spec() == seq![-5i16, -3i16, 3i16, 1i16],
{
    let r = Comma::from_monzo("keema", &[-5, -3, 3, 1]);
    assert(r.monzo_spec() =~= seq![-5i16, -3i16, 3i16, 1i16]);
    r
}

/// gariboh.
pub fn comma51() -> (r: Comma)
    ensures
        r.monzo_spec() == seq![0i16, -2i16, 5i16, -3i16],
{
    let r = Comma::from_monzo("gariboh", &[0, -2, 5, -3]);
    assert(r.monzo_spec() =~= seq![0i16, -2i16, 5i16, -3i16]);
    r
}

/// nuwell.
pub fn comma52() -> (r: Comma)
    ensures
        r.monzo_spec() == seq![1i16, 5i16, 1i16, -4i16],
{
    let r = Comma::from_monzo("nuwell", &[1, 5, 1, -4]);
    assert(r.monzo_spec() =~= seq![1i16, 5i16, 1i16, -4i16]);
    r
}

/// small quadruple bluish.
pub fn comma53() -> (r: Comma)
    ensures
        r.monzo_spec() == seq![6i16, -5i16, -4i16, 4i16],
{
    let r = Comma::from_monzo("small quadruple bluish", &[6, -5, -4, 4]);
    assert(r.monzo_spec() =~= seq![6i16, -5i16, -4i16, 4i16]);
    r
}

/// tolerma.
pub fn comma54() -> (r: Comma)
    ensures
        r.monzo_spec() == seq![10i16, -11i16, 2i16, 1i16],
{
    let r = Comma::from_monzo("tolerma", &[10, -11, 2, 1]);
    assert(r.monzo_spec() =~= seq![10i16, -11i16, 2i16, 1i16]);
    r
}

/// 25-36/35-comma, icosipentatonic comma.
pub fn comma55() -> (r: Comma)
    ensures
        r.monzo_spec() == seq![49i16, 50i16, -25i16, -25i16],
{
    let r = Comma::from_monzo("25-36/35-comma, icosipentatonic comma", &[49, 50, -25, -25]);
    assert(r.monzo_spec() =~= seq![49i16, 50i16, -25i16, -25i16]);
    r
}

/// Huntian 21-cycle comma.
pub fn comma56() -> (r: Comma)
    ensures
        r.monzo_spec() == seq![123i16, -28i16, 0i16, -28i16],
{
    let r = Comma::from_monzo("Huntian 21-cycle comma", &[123, -28, 0, -28]);
    assert(r.monzo_spec() =~= seq![123i16, -28i16, 0i16, -28i16]);
    r
}

/// mirwomo.
pub fn comma57() -> (r: Comma)
    ensures
        r.monzo_spec() == seq![-15i16, 3i16, 2i16, 2i16],
{
    let r = Comma::from_monzo("mirwomo", &[-15, 3, 2, 2]);
    assert(r.monzo_spec() =~= seq![-15i16, 3i16, 2i16, 2i16]);
    r
}

/// trimyna.
pub fn comma58() -> (r: Comma)
    ensures
        r.monzo_spec() == seq![-4i16, 1i16, -5i16, 5i16],
{
    let r = Comma::from_monzo("trimyna", &[-4, 1, -5, 5]);
    assert(r.monzo_spec() =~= seq![-4i16, 1i16, -5i16, 5i16]);
    r
}

/// sensamagic.
pub fn comma59() -> (r: Comma)
    ensures
        r.monzo_spec() == seq![0i16, -5i16, 1i16, 2i16],
{
    let r = Comma::from_monzo("sensamagic", &[0, -5, 1, 2]);
    assert(r.monzo_spec() =~= seq![0i16, -5i16, 1i16, 2i16]);
    r
}

/// septimal semicomma, starling comma.
pub fn comma60() -> (r: Comma)
    ensures
        r.monzo_spec() == seq![1i16, 2i16, -3i16, 1i16],
{
    let r = Comma::from_monzo("septimal semicomma, starling comma", &[1, 2, -3, 1]);
    assert(r.monzo_spec() =~= seq![1i16, 2i16, -3i16, 1i16]);
    r
}

/// slendro 34-comma.
pub fn comma61() -> (r: Comma)
    ensures
        r.monzo_spec() == seq![-137i16, -34i16, 0i16, 68i16],
{
    let r = Comma::from_monzo("slendro 34-comma", &[-137, -34, 0, 68]);
    assert(r.monzo_spec() =~= seq![-137i16, -34i16, 0i16, 68i16]);
    r
}

/// octagar.
pub fn comma62() -> (r: Comma)
    ensures
        r.monzo_spec() == seq![5i16, -4i16, 3i16, -2i16],
{
    let r = Comma::from_monzo("octagar", &[5, -4, 3, -2]);
    assert(r.monzo_spec() =~= seq![5i16, -4i16, 3i16, -2i16]);
    r
}

/// orwellisma, orwell comma.
pub fn comma63() -> (r: Comma)
    ensures
        r.monzo_spec() == seq![6i16, 3i16, -1i16, -3i16],
{
    let r = Comma::from_monzo("orwellisma, orwell comma", &[6, 3, -1, -3]);
    assert(r.monzo_spec() =~= seq![6i16, 3i16, -1i16, -3i16]);
    r
}

/// 35-7/5-comma.
pub fn comma64() -> (r: Comma)
    ensures
        r.monzo_spec() == seq![17i16, 0i16, 35i16, -35i16],
{
    let r = Comma::from_monzo("35-7/5-comma", &[17, 0, 35, -35]);
    assert(r.monzo_spec() =~= seq![17i16, 0i16, 35i16, -35i16]);
    r
}

/// 218edo (stacked 7/4 and 10/9) comma.
pub fn comma65() -> (r: Comma)
    ensures
        r.monzo_spec() == seq![22i16, -32i16, 16i16, -3i16],
{
    let r = Comma::from_monzo("218edo (stacked 7/4 and 10/9) comma", &[22, -32, 16, -3]);
    assert(r.monzo_spec() =~= seq![22i16, -32i16, 16i16, -3i16]);
    r
}

/// 34-jubilismic comma.
pub fn comma66() -> (r: Comma)
    ensures
        r.monzo_spec() == seq![-33i16, 0i16, -68i16, 68i16],
{
    let r = Comma::from_monzo("34-jubilismic comma", &[-33, 0, -68, 68]);
    assert(r.monzo_spec() =~= seq![-33i16, 0i16, -68i16, 68i16]);
    r
}

/// Hunt 7-cycle comma.
pub fn comma67() -> (r: Comma)
    ensures
        r.monzo_spec() == seq![73i16, 0i16, 0i16, -26i16],
{
    let r = Comma::from_monzo("Hunt 7-cycle comma", &[73, 0, 0, -26]);
    assert(r.monzo_spec() =~= seq![73i16, 0i16, 0i16, -26i16]);
    r
}

/// 31-35-comma.
pub fn comma68() -> (r: Comma)
    ensures
        r.monzo_spec() == seq![-159i16, 0i16, 31i16, 31i16],
{
    let r = Comma::from_monzo("31-35-comma", &[-159, 0, 31, 31]);
    assert(r.monzo_spec() =~= seq![-159i16, 0i16, 31i16, 31i16]);
    r
}

/// quince.
pub fn comma69() -> (r: Comma)
    ensures
        r.monzo_spec() == seq![-15i16, 0i16, -2i16, 7i16],
{
    let r = Comma::from_monzo("quince", &[-15, 0, -2, 7]);
    assert(r.monzo_spec() =~= seq![-15i16, 0i16, -2i16, 7i16]);
    r
}

/// gamelisma.
pub fn comma70() -> (r: Comma)
    ensures
        r.monzo_spec() == seq![-10i16, 1i16, 0i16, 3i16],
{
    let r = Comma::from_monzo("gamelisma", &[-10, 1, 0, 3]);
    assert(r.monzo_spec() =~= seq![-10i16, 1i16, 0i16, 3i16]);
    r
}

/// varunisma.
pub fn comma71() -> (r: Comma)
    ensures
        r.monzo_spec() == seq![-9i16, 8i16, -4i16, 2i16],
{
    let r = Comma::from_monzo("varunisma", &[-9, 8, -4, 2]);
    assert(r.monzo_spec() =~= seq![-9i16, 8i16, -4i16, 2i16]);
    r
}

/// septimal kleisma, marvel comma.
pub fn comma72() -> (r: Comma)
    ensures
        r.monzo_spec() == seq![-5i16, 2i16, 2i16, -1i16],
{
    let r = Comma::from_monzo("septimal kleisma, marvel comma", &[-5, 2, 2, -1]);
    assert(r.monzo_spec() =~= seq![-5i16, 2i16, 2i16, -1i16]);
    r
}

/// dimcomp.
pub fn comma73() -> (r: Comma)
    ensures
        r.monzo_spec() == seq![-1i16, -4i16, 8i16, -4i16],
{
    let r = Comma::from_monzo("dimcomp", &[-1, -4, 8, -4]);
    assert(r.monzo_spec() =~= seq![-1i16, -4i16, 8i16, -4i16]);
    r
}

/// cataharry.
pub fn comma74() -> (r: Comma)
    ensures
        r.monzo_spec() == seq![-4i16, 9i16, -2i16, -2i16],
{
    let r = Comma::from_monzo("cataharry", &[-4, 9, -2, -2]);
    assert(r.monzo_spec() =~= seq![-4i16, 9i16, -2i16, -2i16]);
    r
}

/// mirkwai.
pub fn comma75() -> (r: Comma)
    ensures
        r.monzo_spec() == seq![0i16, 3i16, 4i16, -5i16],
{
    let r = Comma::from_monzo("mirkwai", &[0, 3, 4, -5]);
    assert(r.monzo_spec() =~= seq![0i16, 3i16, 4i16, -5i16]);
    r
}

/// stearnsma.
pub fn comma76() -> (r: Comma)
    ensures
        r.monzo_spec() == seq![1i16, 10i16, 0i16, -6i16],
{
    let r = Comma::from_monzo("stearnsma", &[1, 10, 0, -6]);
    assert(r.monzo_spec() =~= seq![1i16, 10i16, 0i16, -6i16]);
    r
}

/// hemimage.
pub fn comma77() -> (r: Comma)
    ensures
        r.monzo_spec() == seq![5i16, -7i16, -1i16, 3i16],
{
    let r = Comma::from_monzo("hemimage", &[5, -7, -1, 3]);
    assert(r.monzo_spec() =~= seq![5i16, -7i16, -1i16, 3i16]);
    r
}

/// hemimean.
pub fn comma78() -> (r: Comma)
    ensures
        r.monzo_spec() == seq![6i16, 0i16, -5i16, 2i16],
{
    let r = Comma::from_monzo("hemimean", &[6, 0, -5, 2]);
    assert(r.monzo_spec() =~= seq![6i16, 0i16, -5i16, 2i16]);
    r
}

/// hemifamity.
pub fn comma79() -> (r: Comma)
    ensures
        r.monzo_spec() == seq![10i16, -6i16, 1i16, -1i16],
{
    let r = Comma::from_monzo("hemifamity", &[10, -6, 1, -1]);
    assert(r.monzo_spec() =~= seq![10i16, -6i16, 1i16, -1i16]);
    r
}

/// linus comma.
pub fn comma80() -> (r: Comma)
    ensures
        r.monzo_spec() == seq![11i16, -10i16, -10i16, 10i16],
{
    let r = Comma::from_monzo("linus comma", &[11, -10, -10, 10]);
    assert(r.monzo_spec() =~= seq![11i16, -10i16, -10i16, 10i16]);
    r
}

/// porwell.
pub fn comma81() -> (r: Comma)
    ensures
        r.monzo_spec() == seq![11i16, 1i16, -3i16, -2i16],
{
    let r = Comma::from_monzo("porwell", &[11, 1, -3, -2]);
    assert(r.monzo_spec() =~= seq![11i16, 1i16, -3i16, -2i16]);
    r
}

/// garischisma.
pub fn comma82() -> (r: Comma)
    ensures
        r.monzo_spec() == seq![25i16, -14i16, 0i16, -1i16],
{
    let r = Comma::from_monzo("garischisma", &[25, -14, 0, -1]);
    assert(r.monzo_spec() =~= seq![25i16, -14i16, 0i16, -1i16]);
    r
}

/// wadisma.
pub fn comma83() -> (r: Comma)
    ensures
        r.monzo_spec() == seq![-26i16, -1i16, 1i16, 9i16],
{
    let r = Comma::from_monzo("wadisma", &[-26, -1, 1, 9]);
    assert(r.monzo_spec() =~= seq![-26i16, -1i16, 1i16, 9i16]);
    r
}

/// quasiorwellisma.
pub fn comma84() -> (r: Comma)
    ensures
        r.monzo_spec() == seq![22i16, -1i16, -10i16, 1i16],
{
    let r = Comma::from_monzo("quasiorwellisma", &[22, -1, -10, 1]);
    assert(r.monzo_spec() =~= seq![22i16, -1i16, -10i16, 1i16]);
    r
}

/// thuja comma.
pub fn comma85() -> (r: Comma)
    ensures
        r.monzo_spec() == seq![15i16, 0i16, 1i16, 0i16, -5i16],
{
    let r = Comma::from_monzo("thuja comma", &[15, 0, 1, 0, -5]);
    assert(r.monzo_spec() =~= seq![15i16, 0i16, 1i16, 0i16, -5i16]);
    r
}

/// sensmus.
pub fn comma86() -> (r: Comma)
    ensures
        r.monzo_spec() == seq![4i16, -5i16, -1i16, 1i16, 1i16],
{
    let r = Comma::from_monzo("sensmus", &[4, -5, -1, 1, 1]);
    assert(r.monzo_spec() =~= seq![4i16, -5i16, -1i16, 1i16, 1i16]);
    r
}

/// sevnothrush.
pub fn comma87() -> (r: Comma)
    ensures
        r.monzo_spec() == seq![5i16, 2i16, -5i16, 0i16, 1i16],
{
    let r = Comma::from_monzo("sevnothrush", &[5, 2, -5, 0, 1]);
    assert(r.monzo_spec() =~= seq![5i16, 2i16, -5i16, 0i16, 1i16]);
    r
}

/// cassacot.
pub fn comma88() -> (r: Comma)
    ensures
        r.monzo_spec() == seq![-1i16, 0i16, 1i16, 2i16, -2i16],
{
    let r = Comma::from_monzo("cassacot", &[-1, 0, 1, 2, -2]);
    assert(r.monzo_spec() =~= seq![-1i16, 0i16, 1i16, 2i16, -2i16]);
    r
}

/// mothwellsma.
pub fn comma89() -> (r: Comma)
    ensures
        r.monzo_spec() == seq![-1i16, 2i16, 0i16, -2i16, 1i16],
{
    let r = Comma::from_monzo("mothwellsma", &[-1, 2, 0, -2, 1]);
    assert(r.monzo_spec() =~= seq![-1i16, 2i16, 0i16, -2i16, 1i16]);
    r
}

/// ptolemisma.
pub fn comma90() -> (r: Comma)
    ensures
        r.monzo_spec() == seq![2i16, -2i16, 2i16, 0i16, -1i16],
{
    let r = Comma::from_monzo("ptolemisma", &[2, -2, 2, 0, -1]);
    assert(r.monzo_spec() =~= seq![2i16, -2i16, 2i16, 0i16, -1i16]);
    r
}

/// hemimin.
pub fn comma91() -> (r: Comma)
    ensures
        r.monzo_spec() == seq![6i16, 1i16, 0i16, 1i16, -3i16],
{
    let r = Comma::from_monzo("hemimin", &[6, 1, 0, 1, -3]);
    assert(r.monzo_spec() =~= seq![6i16, 1i16, 0i16, 1i16, -3i16]);
    r
}

/// biyatisma.
pub fn comma92() -> (r: Comma)
    ensures
        r.monzo_spec() == seq![-3i16, -1i16, -1i16, 0i16, 2i16],
{
    let r = Comma::from_monzo("biyatisma", &[-3, -1, -1, 0, 2]);
    assert(r.monzo_spec() =~= seq![-3i16, -1i16, -1i16, 0i16, 2i16]);
    r
}

/// aphrowe.
pub fn comma93() -> (r: Comma)
    ensures
        r.monzo_spec() == seq![-3i16, 0i16, -2i16, 3i16],
{
    let r = Comma::from_monzo("aphrowe", &[-3, 0, -2, 3]);
    assert(r.monzo_spec() =~= seq![-3i16, 0i16, -2i16, 3i16]);
    r
}

/// valinorsma.
pub fn comma94() -> (r: Comma)
    ensures
        r.monzo_spec() == seq![4i16, 0i16, -2i16, -1i16, 1i16],
{
    let r = Comma::from_monzo("valinorsma", &[4, 0, -2, -1, 1]);
    assert(r.monzo_spec() =~= seq![4i16, 0i16, -2i16, -1i16, 1i16]);
    r
}

/// pentacircle.
pub fn comma95() -> (r: Comma)
    ensures
        r.monzo_spec() == seq![7i16, -4i16, 0i16, 1i16, -1i16],
{
    let r = Comma::from_monzo("pentacircle", &[7, -4, 0, 1, -1]);
    assert(r.monzo_spec() =~= seq![7i16, -4i16, 0i16, 1i16, -1i16]);
    r
}

/// orgonisma.
pub fn comma96() -> (r: Comma)
    ensures
        r.monzo_spec() == seq![16i16, 0i16, 0i16, -2i16, -3i16],
{
    let r = Comma::from_monzo("orgonisma", &[16, 0, 0, -2, -3]);
    assert(r.monzo_spec() =~= seq![16i16, 0i16, 0i16, -2i16, -3i16]);
    r
}

/// quindecic comma.
pub fn comma97() -> (r: Comma)
    ensures
        r.monzo_spec() == seq![14i16, -15i16, 0i16, -15i16, 15i16],
{
    let r = Comma::from_monzo("quindecic comma", &[14, -15, 0, -15, 15]);
    assert(r.monzo_spec() =~= seq![14i16, -15i16, 0i16, -15i16, 15i16]);
    r
}

/// rastma.
pub fn comma98() -> (r: Comma)
    ensures
        r.monzo_spec() == seq![-1i16, 5i16, 0i16, 0i16, -2i16],
{
    let r = Comma::from_monzo("rastma", &[-1, 5, 0, 0, -2]);
    assert(r.monzo_spec() =~= seq![-1i16, 5i16, 0i16, 0i16, -2i16]);
    r
}

/// myhemiwell.
pub fn comma99() -> (r: Comma)
    ensures
        r.monzo_spec() == seq![2i16, -3i16, -3i16, 1i16, 2i16],
{
    let r = Comma::from_monzo("myhemiwell", &[2, -3, -3, 1, 2]);
    assert(r.monzo_spec() =~= seq![2i16, -3i16, -3i16, 1i16, 2i16]);
    r
}

/// octatonic comma.
pub fn comma101() -> (r: Comma)
    ensures
        r.monzo_spec() == seq![15i16, 8i16, 0i16, 0i16, -8i16],
{
    let r = Comma::from_monzo("octatonic comma", &[15, 8, 0, 0, -8]);
    assert(r.monzo_spec() =~= seq![15i16, 8i16, 0i16, 0i16, -8i16]);
    r
}

/// keenanisma.
pub fn comma102() -> (r: Comma)
    ensures
        r.monzo_spec() == seq![-7i16, -1i16, 1i16, 1i16, 1i16],
{
    let r = Comma::from_monzo("keenanisma", &[-7, -1, 1, 1, 1]);
    assert(r.monzo_spec() =~= seq![-7i16, -1i16, 1i16, 1i16, 1i16]);
    r
}

/// werckisma.
pub fn comma103() -> (r: Comma)
    ensures
        r.monzo_spec() == seq![-3i16, 2i16, -1i16, 2i16, -1i16],
{
    let r = Comma::from_monzo("werckisma", &[-3, 2, -1, 2, -1]);
    assert(r.monzo_spec() =~= seq![-3i16, 2i16, -1i16, 2i16, -1i16]);
    r
}

/// moctdel.
pub fn comma104() -> (r: Comma)
    ensures
        r.monzo_spec() == seq![-2i16, 0i16, 3i16, -3i16, 1i16],
{
    let r = Comma::from_monzo("moctdel", &[-2, 0, 3, -3, 1]);
    assert(r.monzo_spec() =~= seq![-2i16, 0i16, 3i16, -3i16, 1i16]);
    r
}

/// wilsorma.
pub fn comma105() -> (r: Comma)
    ensures
        r.monzo_spec() == seq![-6i16, 0i16, 1i16, 0i16, 0i16, 1i16],
{
    let r = Comma::from_monzo("wilsorma", &[-6, 0, 1, 0, 0, 1]);
    assert(r.monzo_spec() =~= seq![-6i16, 0i16, 1i16, 0i16, 0i16, 1i16]);
    r
}

/// winmeanma.
pub fn comma106() -> (r: Comma)
    ensures
        r.monzo_spec() == seq![1i16, 1i16, -1i16, 0i16, 1i16, -1i16],
{
    let r = Comma::from_monzo("winmeanma", &[1, 1, -1, 0, 1, -1]);
    assert(r.monzo_spec() =~= seq![1i16, 1i16, -1i16, 0i16, 1i16, -1i16]);
    r
}

/// negustma.
pub fn comma107() -> (r: Comma)
    ensures
        r.monzo_spec() == seq![1i16, 1i16, 0i16, -1i16, -1i16, 1i16],
{
    let r = Comma::from_monzo("negustma", &[1, 1, 0, -1, -1, 1]);
    assert(r.monzo_spec() =~= seq![1i16, 1i16, 0i16, -1i16, -1i16, 1i16]);
    r
}

/// superleap.
pub fn comma108() -> (r: Comma)
    ensures
        r.monzo_spec() == seq![-1i16, -2i16, -1i16, 1i16, 0i16, 1i16],
{
    let r = Comma::from_monzo("superleap", &[-1, -2, -1, 1, 0, 1]);
    assert(r.monzo_spec() =~= seq![-1i16, -2i16, -1i16, 1i16, 0i16, 1i16]);
    r
}

/// animist.
pub fn comma109() -> (r: Comma)
    ensures
        r.monzo_spec() == seq![-3i16, 1i16, 1i16, 1i16, 0i16, -1i16],
{
    let r = Comma::from_monzo("animist", &[-3, 1, 1, 1, 0, -1]);
    assert(r.monzo_spec() =~= seq![-3i16, 1i16, 1i16, 1i16, 0i16, -1i16]);
    r
}

/// secorian.
pub fn comma110() -> (r: Comma)
    ensures
        r.monzo_spec() == seq![12i16, -7i16, 0i16, 1i16, 0i16, -1i16],
{
    let r = Comma::from_monzo("secorian", &[12, -7, 0, 1, 0, -1]);
    assert(r.monzo_spec() =~= seq![12i16, -7i16, 0i16, 1i16, 0i16, -1i16]);
    r
}

/// mosaic.
pub fn comma111() -> (r: Comma)
    ensures
        r.monzo_spec() == seq![-6i16, 5i16, 0i16, -2i16, 0i16, 1i16],
{
    let r = Comma::from_monzo("mosaic", &[-6, 5, 0, -2, 0, 1]);
    assert(r.monzo_spec() =~= seq![-6i16, 5i16, 0i16, -2i16, 0i16, 1i16]);
    r
}

/// gassorma.
pub fn comma112() -> (r: Comma)
    ensures
        r.monzo_spec() == seq![0i16, -1i16, 2i16, -1i16, 1i16, -1i16],
{
    let r = Comma::from_monzo("gassorma", &[0, -1, 2, -1, 1, -1]);
    assert(r.monzo_spec() =~= seq![0i16, -1i16, 2i16, -1i16, 1i16, -1i16]);
    r
}

/// grossma.
pub fn comma113() -> (r: Comma)
    ensures
        r.monzo_spec() == seq![4i16, 2i16, 0i16, 0i16, -1i16, -1i16],
{
    let r = Comma::from_monzo("grossma", &[4, 2, 0, 0, -1, -1]);
    assert(r.monzo_spec() =~= seq![4i16, 2i16, 0i16, 0i16, -1i16, -1i16]);
    r
}

/// buzurgisma dhanvantarisma.
pub fn comma114() -> (r: Comma)
    ensures
        r.monzo_spec() == seq![-3i16, -1i16, 0i16, -1i16, 0i16, 2i16],
{
    let r = Comma::from_monzo("buzurgisma dhanvantarisma", &[-3, -1, 0, -1, 0, 2]);
    assert(r.monzo_spec() =~= seq![-3i16, -1i16, 0i16, -1i16, 0i16, 2i16]);
    r
}

/// catadictma.
pub fn comma115() -> (r: Comma)
    ensures
        r.monzo_spec() == seq![-8i16, 2i16, -1i16, 0i16, 1i16, 1i16],
{
    let r = Comma::from_monzo("catadictma", &[-8, 2, -1, 0, 1, 1]);
    assert(r.monzo_spec() =~= seq![-8i16, 2i16, -1i16, 0i16, 1i16, 1i16]);
    r
}

/// mynucuma.
pub fn comma116() -> (r: Comma)
    ensures
        r.monzo_spec() == seq![2i16, -1i16, -1i16, 2i16, 0i16, -1i16],
{
    let r = Comma::from_monzo("mynucuma", &[2, -1, -1, 2, 0, -1]);
    assert(r.monzo_spec() =~= seq![2i16, -1i16, -1i16, 2i16, 0i16, -1i16]);
    r
}

/// huntma nelindic comma.
pub fn comma117() -> (r: Comma)
    ensures
        r.monzo_spec() == seq![7i16, 0i16, 1i16, -2i16, 0i16, -1i16],
{
    let r = Comma::from_monzo("huntma nelindic comma", &[7, 0, 1, -2, 0, -1]);
    assert(r.monzo_spec() =~= seq![7i16, 0i16, 1i16, -2i16, 0i16, -1i16]);
    r
}

/// threedie.
pub fn comma118() -> (r: Comma)
    ensures
        r.monzo_spec() == seq![0i16, -7i16, 0i16, 0i16, 0i16, 3i16],
{
    let r = Comma::from_monzo("threedie", &[0, -7, 0, 0, 0, 3]);
    assert(r.monzo_spec() =~= seq![0i16, -7i16, 0i16, 0i16, 0i16, 3i16]);
    r
}

/// kestrel comma.
pub fn comma119() -> (r: Comma)
    ensures
        r.monzo_spec() == seq![2i16, 3i16, 0i16, -1i16, 1i16, -2i16],
{
    let r = Comma::from_monzo("kestrel comma", &[2, 3, 0, -1, 1, -2]);
    assert(r.monzo_spec() =~= seq![2i16, 3i16, 0i16, -1i16, 1i16, -2i16]);
    r
}

/// marveltwin.
pub fn comma120() -> (r: Comma)
    ensures
        r.monzo_spec() == seq![-2i16, -4i16, 2i16, 0i16, 0i16, 1i16],
{
    let r = Comma::from_monzo("marveltwin", &[-2, -4, 2, 0, 0, 1]);
    assert(r.monzo_spec() =~= seq![-2i16, -4i16, 2i16, 0i16, 0i16, 1i16]);
    r
}

/// Hunt 13-cycle comma.
pub fn comma121() -> (r: Comma)
    ensures
        r.monzo_spec() == seq![-37i16, 0i16, 0i16, 0i16, 0i16, 10i16],
{
    let r = Comma::from_monzo("Hunt 13-cycle comma", &[-37, 0, 0, 0, 0, 10]);
    assert(r.monzo_spec() =~= seq![-37i16, 0i16, 0i16, 0i16, 0i16, 10i16]);
    r
}

/// ratwolfsma.
pub fn comma122() -> (r: Comma)
    ensures
        r.monzo_spec() == seq![-1i16, 3i16, -2i16, -1i16, 0i16, 1i16],
{
    let r = Comma::from_monzo("ratwolfsma", &[-1, 3, -2, -1, 0, 1]);
    assert(r.monzo_spec() =~= seq![-1i16, 3i16, -2i16, -1i16, 0i16, 1i16]);
    r
}

/// minthma.
pub fn comma123() -> (r: Comma)
    ensures
        r.monzo_spec() == seq![5i16, -3i16, 0i16, 0i16, 1i16, -1i16],
{
    let r = Comma::from_monzo("minthma", &[5, -3, 0, 0, 1, -1]);
    assert(r.monzo_spec() =~= seq![5i16, -3i16, 0i16, 0i16, 1i16, -1i16]);
    r
}

/// gentle comma.
pub fn comma124() -> (r: Comma)
    ensures
        r.monzo_spec() == seq![2i16, -1i16, 0i16, 1i16, -2i16, 1i16],
{
    let r = Comma::from_monzo("gentle comma", &[2, -1, 0, 1, -2, 1]);
    assert(r.monzo_spec() =~= seq![2i16, -1i16, 0i16, 1i16, -2i16, 1i16]);
    r
}

/// cuthbert.
pub fn comma125() -> (r: Comma)
    ensures
        r.monzo_spec() == seq![0i16, 0i16, -1i16, 1i16, 2i16, -2i16],
{
    let r = Comma::from_monzo("cuthbert", &[0, 0, -1, 1, 2, -2]);
    assert(r.monzo_spec() =~= seq![0i16, 0i16, -1i16, 1i16, 2i16, -2i16]);
    r
}

/// soruyo unison.
pub fn comma_soruyo() -> (r: Comma)
    ensures
        r.monzo_spec() == seq![-2i16, -1i16, 1i16, -1i16, 0i16, 0i16, 1i16],
{
    let r = Comma::from_monzo("soruyo unison", &[-2, -1, 1, -1, 0, 0, 1]);
    assert(r.monzo_spec() =~= seq![-2i16, -1i16, 1i16, -1i16, 0i16, 0i16, 1i16]);
    r
}

/// lum comma.
pub fn comma_lum() -> (r: Comma)
    ensures
        r.monzo_spec() == seq![-1i16, 0i16, 0i16, 0i16, -1i16, -1i16, 2i16],
{
    let r = Comma::from_monzo("lum comma", &[-1, 0, 0, 0, -1, -1, 2]);
    assert(r.monzo_spec() =~= seq![-1i16, 0i16, 0i16, 0i16, -1i16, -1i16, 2i16]);
    r
}

/// mey comma.
pub fn comma_mey() -> (r: Comma)
    ensures
        r.monzo_spec() == seq![-7i16, 0i16, 0i16, 0i16, 0i16, 3i16, -1i16],
{
    let r = Comma::from_monzo("mey comma", &[-7, 0, 0, 0, 0, 3, -1]);
    assert(r.monzo_spec() =~= seq![-7i16, 0i16, 0i16, 0i16, 0i16, 3i16, -1i16]);
    r
}

/// septendecimal comma, Hunt flat 2 comma.
pub fn comma_septendecimal_hunt() -> (r: Comma)
    ensures
        r.monzo_spec() == seq![-12i16, 5i16, 0i16, 0i16, 0i16, 0i16, 1i16],
{
    let r = Comma::from_monzo("septendecimal comma, Hunt flat 2 comma", &[-12, 5, 0, 0, 0, 0, 1]);
    assert(r.monzo_spec() =~= seq![-12i16, 5i16, 0i16, 0i16, 0i16, 0i16, 1i16]);
    r
}

/// suruyo comma.
pub fn comma_suruyo() -> (r: Comma)
    ensures
        r.monzo_spec() == seq![3i16, 1i16, 1i16, -1i16, 0i16, 0i16, -1i16],
{
    let r = Comma::from_monzo("suruyo comma", &[3, 1, 1, -1, 0, 0, -1]);
    assert(r.monzo_spec() =~= seq![3i16, 1i16, 1i16, -1i16, 0i16, 0i16, -1i16]);
    r
}

/// 23 semitone comma.
pub fn comma_semitone_23() -> (r: Comma)
    ensures
        r.monzo_spec() == seq![-94i16, 0i16, 0i16, 0i16, 0i16, 0i16, 23i16],
{
    let r = Comma::from_monzo("23 semitone comma", &[-94, 0, 0, 0, 0, 0, 23]);
    assert(r.monzo_spec() =~= seq![-94i16, 0i16, 0i16, 0i16, 0i16, 0i16, 23i16]);
    r
}

/// sothuthuyo unison.
pub fn comma_sothutuyo() -> (r: Comma)
    ensures
        r.monzo_spec() == seq![1i16, 0i16, 1i16, 0i16, 0i16, -2i16, 1i16],
{
    let r = Comma::from_monzo("sothuthuyo unison", &[1, 0, 1, 0, 0, -2, 1]);
    assert(r.monzo_spec() =~= seq![1i16, 0i16, 1i16, 0i16, 0i16, -2i16, 1i16]);
    r
}

/// septendecimal schisma.
pub fn comma_septendecimal_schisma() -> (r: Comma)
    ensures
        r.monzo_spec() == seq![-7i16, 7i16, 0i16, 0i16, 0i16, 0i16, -1i16],
{
    let r = Comma::from_monzo("septendecimal schisma", &[-7, 7, 0, 0, 0, 0, -1]);
    assert(r.monzo_spec() =~= seq![-7i16, 7i16, 0i16, 0i16, 0i16, 0i16, -1i16]);
    r
}

/// Blume comma.
pub fn comma_blume() -> (r: Comma)
    ensures
        r.monzo_spec() == seq![-11i16, 0i16, 0i16, 0i16, 2i16, 0i16, 1i16],
{
    let r = Comma::from_monzo("Blume comma", &[-11, 0, 0, 0, 2, 0, 1]);
    assert(r.monzo_spec() =~= seq![-11i16, 0i16, 0i16, 0i16, 2i16, 0i16, 1i16]);
    r
}

/// septendecimal kleisma.
pub fn comma_septemdecimal_kleisma() -> (r: Comma)
    ensures
        r.monzo_spec() == seq![8i16, -1i16, -1i16, 0i16, 0i16, 0i16, -1i16],
{
    let r = Comma::from_monzo("septendecimal kleisma", &[8, -1, -1, 0, 0, 0, -1]);
    assert(r.monzo_spec() =~= seq![8i16, -1i16, -1i16, 0i16, 0i16, 0i16, -1i16]);
    r
}

/// tannisma.
pub fn comma_tannisma() -> (r: Comma)
    ensures
        r.monzo_spec() == seq![-4i16, 1i16, 0i16, 1i16, 0i16, 1i16, -1i16],
{
    let r = Comma::from_monzo("tannisma", &[-4, 1, 0, 1, 0, 1, -1]);
    assert(r.monzo_spec() =~= seq![-4i16, 1i16, 0i16, 1i16, 0i16, 1i16, -1i16]);
    r
}

/// septendecimal integer cents comma.
pub fn comma_septendecimal_int_cents() -> (r: Comma)
    ensures
        r.monzo_spec() == seq![-5i16, -2i16, 0i16, 0i16, 0i16, 0i16, 2i16],
{
    let r = Comma::from_monzo("septendecimal integer cents comma", &[-5, -2, 0, 0, 0, 0, 2]);
    assert(r.monzo_spec() =~= seq![-5i16, -2i16, 0i16, 0i16, 0i16, 0i16, 2i16]);
    r
}

/// 17-ripple integer cents comma.
pub fn comma_ripple_17() -> (r: Comma)
    ensures
        r.monzo_spec() == seq![327i16, 0i16, 0i16, 0i16, 0i16, 0i16, -80i16],
{
    let r = Comma::from_monzo("17-ripple integer cents comma", &[327, 0, 0, 0, 0, 0, -80]);
    assert(r.monzo_spec() =~= seq![327i16, 0i16, 0i16, 0i16, 0i16, 0i16, -80i16]);
    r
}

/// nuruyo comma.
pub fn comma_nuruyo() -> (r: Comma)
    ensures
        r.monzo_spec() == seq![0i16, 3i16, 1i16, -1i16, 0i16, 0i16, 0i16, -1i16],
{
    let r = Comma::from_monzo("nuruyo comma", &[0, 3, 1, -1, 0, 0, 0, -1]);
    assert(r.monzo_spec() =~= seq![0i16, 3i16, 1i16, -1i16, 0i16, 0i16, 0i16, -1i16]);
    r
}

/// nogugu 2nd.
pub fn comma_nogugu() -> (r: Comma)
    ensures
        r.monzo_spec() == seq![2i16, -1i16, -2i16, 0i16, 0i16, 0i16, 0i16, 1i16],
{
    let r = Comma::from_monzo("nogugu 2nd", &[2, -1, -2, 0, 0, 0, 0, 1]);
    assert(r.monzo_spec() =~= seq![2i16, -1i16, -2i16, 0i16, 0i16, 0i16, 0i16, 1i16]);
    r
}

/// nulozo unison (approximation to the adjacent step of 53edo).
pub fn comma_nulozo() -> (r: Comma)
    ensures
        r.monzo_spec() == seq![-2i16, 0i16, 0i16, 1i16, 1i16, 0i16, 0i16, -1i16],
{
    let r = Comma::from_monzo("nulozo unison (approximation to the adjacent step of 53edo)", &[-2, 0, 0, 1, 1, 0, 0, -1]);
    assert(r.monzo_spec() =~= seq![-2i16, 0i16, 0i16, 1i16, 1i16, 0i16, 0i16, -1i16]);
    r
}

/// 19th-partial chroma.
pub fn novemdecimal() -> (r: Comma)
    ensures
        r.monzo_spec() == seq![5i16, 1i16, -1i16, 0i16, 0i16, 0i16, 0i16, -1i16],
{
    let r = Comma::from_monzo("19th-partial chroma", &[5, 1, -1, 0, 0, 0, 0, -1]);
    assert(r.monzo_spec() =~= seq![5i16, 1i16, -1i16, 0i16, 0i16, 0i16, 0i16, -1i16]);
    r
}

/// ume comma.
pub fn comma_ume() -> (r: Comma)
    ensures
        r.monzo_spec() == seq![-8i16, 0i16, 0i16, 0i16, 0i16, 0i16, 3i16, -1i16],
{
    let r = Comma::from_monzo("ume comma", &[-8, 0, 0, 0, 0, 0, 3, -1]);
    assert(r.monzo_spec() =~= seq![-8i16, 0i16, 0i16, 0i16, 0i16, 0i16, 3i16, -1i16]);
    r
}

/// noluzo 2nd.
pub fn comma_noluzo() -> (r: Comma)
    ensures
        r.monzo_spec() == seq![-2i16, -1i16, 0i16, 1i16, -1i16, 0i16, 0i16, 1i16],
{
    let r = Comma::from_monzo("noluzo 2nd", &[-2, -1, 0, 1, -1, 0, 0, 1]);
    assert(r.monzo_spec() =~= seq![-2i16, -1i16, 0i16, 1i16, -1i16, 0i16, 0i16, 1i16]);
    r
}

/// Ganassi's comma.
pub fn comma_ganassi() -> (r: Comma)
    ensures
        r.monzo_spec() == seq![-3i16, 2i16, 0i16, 0i16, 0i16, 0i16, 1i16, -1i16],
{
    let r = Comma::from_monzo("Ganassi's comma", &[-3, 2, 0, 0, 0, 0, 1, -1]);
    assert(r.monzo_spec() =~= seq![-3i16, 2i16, 0i16, 0i16, 0i16, 0i16, 1i16, -1i16]);
    r
}

/// nosugu unison.
pub fn comma_nosugu() -> (r: Comma)
    ensures
        r.monzo_spec() == seq![-1i16, 2i16, -1i16, 0i16, 0i16, 0i16, -1i16, 1i16],
{
    let r = Comma::from_monzo("nosugu unison", &[-1, 2, -1, 0, 0, 0, -1, 1]);
    assert(r.monzo_spec() =~= seq![-1i16, 2i16, -1i16, 0i16, 0i16, 0i16, -1i16, 1i16]);
    r
}

/// eye comma.
pub fn comma_eye() -> (r: Comma)
    ensures
        r.monzo_spec() == seq![3i16, 0i16, 0i16, 0i16, -2i16, 0i16, 2i16, -1i16],
{
    let r = Comma::from_monzo("eye comma", &[3, 0, 0, 0, -2, 0, 2, -1]);
    assert(r.monzo_spec() =~= seq![3i16, 0i16, 0i16, 0i16, -2i16, 0i16, 2i16, -1i16]);
    r
}

/// Hunt 19-cycle comma.
pub fn comma_hunt() -> (r: Comma)
    ensures
        r.monzo_spec() == seq![17i16, 0i16, 0i16, 0i16, 0i16, 0i16, 0i16, -4i16],
{
    let r = Comma::from_monzo("Hunt 19-cycle comma", &[17, 0, 0, 0, 0, 0, 0, -4]);
    assert(r.monzo_spec() =~= seq![17i16, 0i16, 0i16, 0i16, 0i16, 0i16, 0i16, -4i16]);
    r
}

/// binulo comma.
pub fn comma_binolu() -> (r: Comma)
    ensures
        r.monzo_spec() == seq![0i16, 1i16, 0i16, 0i16, 2i16, 0i16, 0i16, -2i16],
{
    let r = Comma::from_monzo("binulo comma", &[0, 1, 0, 0, 2, 0, 0, -2]);
    assert(r.monzo_spec() =~= seq![0i16, 1i16, 0i16, 0i16, 2i16, 0i16, 0i16, -2i16]);
    r
}

/// yama comma.
pub fn comma_yaa() -> (r: Comma)
    ensures
        r.monzo_spec() == seq![-4i16, 0i16, 0i16, 0i16, 1i16, -1i16, 0i16, 1i16],
{
    let r = Comma::from_monzo("yama comma", &[-4, 0, 0, 0, 1, -1, 0, 1]);
    assert(r.monzo_spec() =~= seq![-4i16, 0i16, 0i16, 0i16, 1i16, -1i16, 0i16, 1i16]);
    r
}

/// spleen comma.
pub fn comma_spleen() -> (r: Comma)
    ensures
        r.monzo_spec() == seq![1i16, 1i16, 1i16, 1i16, -1i16, 0i16, 0i16, -1i16],
{
    let r = Comma::from_monzo("spleen comma", &[1, 1, 1, 1, -1, 0, 0, -1]);
    assert(r.monzo_spec() =~= seq![1i16, 1i16, 1i16, 1i16, -1i16, 0i16, 0i16, -1i16]);
    r
}

/// nuthologu comma.
pub fn comma_nuthologu() -> (r: Comma)
    ensures
        r.monzo_spec() == seq![1i16, -1i16, -1i16, 0i16, 1i16, 1i16, 0i16, -1i16],
{
    let r = Comma::from_monzo("nuthologu comma", &[1, -1, -1, 0, 1, 1, 0, -1]);
    assert(r.monzo_spec() =~= seq![1i16, -1i16, -1i16, 0i16, 1i16, 1i16, 0i16, -1i16]);
    r
}

/// nusu comma.
pub fn comma_nusu() -> (r: Comma)
    ensures
        r.monzo_spec() == seq![2i16, 4i16, 0i16, 0i16, 0i16, 0i16, -1i16, -1i16],
{
    let r = Comma::from_monzo("nusu comma", &[2, 4, 0, 0, 0, 0, -1, -1]);
    assert(r.monzo_spec() =~= seq![2i16, 4i16, 0i16, 0i16, 0i16, 0i16, -1i16, -1i16]);
    r
}

/// go comma.
pub fn comma_go() -> (r: Comma)
    ensures
        r.monzo_spec() == seq![-3i16, -2i16, -1i16, 0i16, 0i16, 0i16, 0i16, 2i16],
{
    let r = Comma::from_monzo("go comma", &[-3, -2, -1, 0, 0, 0, 0, 2]);
    assert(r.monzo_spec() =~= seq![-3i16, -2i16, -1i16, 0i16, 0i16, 0i16, 0i16, 2i16]);
    r
}

} // verus!
