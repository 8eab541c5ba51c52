//! One generic table component gives both entity kinds their five operations
//! — list, get by key, insert, whole-record update, and delete by key — with
//! one contract each, as the two record kinds only differ in their fields.
use vstd::prelude::*;

use crate::almacen::ErrorAlmacen;

verus! {

use vstd::string::StringExecFns;

/// A record kind that a [`Tabla`] can hold: it carries its own key, can be
/// copied row by row, and is built from an input shape plus a store-assigned
/// key.
pub trait Registro: Sized {
    /// The input shape: the record's fields without the key.
    type Entrada;

    /// The record's primary key.
    spec fn clave(&self) -> int;

    /// The record kind's own field invariant.
    spec fn valido(&self) -> bool;

    /// The field invariant of the input shape.
    spec fn entrada_valida(entrada: &Self::Entrada) -> bool;

    /// Every field of `registro` other than the key equals the corresponding
    /// field of `entrada`.
    spec fn corresponde(entrada: &Self::Entrada, registro: &Self) -> bool;

    fn identificador(&self) -> (r: i32)
        ensures
            r as int == self.clave(),
    ;

    fn duplicar(&self) -> (r: Self)
        ensures
            r == *self,
    ;

    fn crear(entrada: Self::Entrada, id: i32) -> (r: Self)
        requires
            Self::entrada_valida(&entrada),
        ensures
            r.clave() == id as int,
            r.valido(),
            Self::corresponde(&entrada, &r),
    ;
}

/// The predicate that rows surviving a delete of `id` satisfy.
pub open spec fn sin_clave<R: Registro>(id: int) -> spec_fn(R) -> bool {
    |fila: R| fila.clave() != id
}

/// One entity's table: its rows and the key the store will assign next.
///
/// The fields are exposed so that contracts and tests can speak of them, but
/// every operation requires and preserves [`Tabla::bien_formada`].
pub struct Tabla<R> {
    pub filas: Vec<R>,
    pub siguiente_id: i32,
}

impl<R: Registro> Tabla<R> {
    /// Keys are assigned by the store only, so they are unique, positive, and
    /// below the next free key; every row satisfies its kind's invariant.
    pub open spec fn bien_formada(&self) -> bool {
        &&& 1 <= self.siguiente_id
        &&& forall|i: int|
            0 <= i < self.filas@.len() ==> 1 <= (#[trigger] self.filas@[i]).clave()
                < self.siguiente_id as int
        &&& forall|i: int, j: int|
            0 <= i < j < self.filas@.len() ==> (#[trigger] self.filas@[i].clave())
                != (#[trigger] self.filas@[j].clave())
        &&& forall|i: int| 0 <= i < self.filas@.len() ==> (#[trigger] self.filas@[i]).valido()
    }

    pub open spec fn contiene_clave(&self, id: int) -> bool {
        exists|i: int| 0 <= i < self.filas@.len() && (#[trigger] self.filas@[i]).clave() == id
    }

    /// How an insert relates the table before and after the call: with a free
    /// key the input becomes one new row under that key; with the key space
    /// exhausted the table is unchanged and the outcome is a failure.
    pub open spec fn relacion_insercion(
        pre: Self,
        post: Self,
        entrada: R::Entrada,
        r: Result<(), ErrorAlmacen>,
    ) -> bool {
        if pre.siguiente_id < i32::MAX {
            &&& r is Ok
            &&& post.filas@.len() == pre.filas@.len() + 1
            &&& post.filas@.drop_last() == pre.filas@
            &&& post.filas@.last().clave() == pre.siguiente_id as int
            &&& R::corresponde(&entrada, &post.filas@.last())
            &&& post.siguiente_id == pre.siguiente_id + 1
        } else {
            &&& r matches Err(ErrorAlmacen::Fallo(mensaje)) && mensaje@
                == "no queda ninguna clave libre"@
            &&& post == pre
        }
    }

    /// How a whole-record update relates the table before and after the call:
    /// the row whose key matches is replaced by `registro` entirely, every
    /// other row is kept, and the outcome counts the affected rows.
    pub open spec fn relacion_actualizacion(
        pre: Self,
        post: Self,
        registro: R,
        r: Result<u64, ErrorAlmacen>,
    ) -> bool {
        &&& post.filas@ == filas_reemplazadas(pre.filas@, registro)
        &&& post.siguiente_id == pre.siguiente_id
        &&& r matches Ok(n) && n == (if pre.contiene_clave(registro.clave()) {
            1u64
        } else {
            0u64
        })
    }

    /// How a delete relates the table before and after the call: the rows
    /// whose key matches are dropped, the rest keep their order, and the
    /// outcome counts the affected rows.
    pub open spec fn relacion_borrado(
        pre: Self,
        post: Self,
        id: int,
        r: Result<u64, ErrorAlmacen>,
    ) -> bool {
        &&& post.filas@ == pre.filas@.filter(sin_clave::<R>(id))
        &&& post.siguiente_id == pre.siguiente_id
        &&& !post.contiene_clave(id)
        &&& r matches Ok(n) && n == (if pre.contiene_clave(id) {
            1u64
        } else {
            0u64
        })
    }

    pub fn nueva() -> (t: Self)
        ensures
            t.bien_formada(),
            t.filas@.len() == 0,
            t.siguiente_id == 1,
    {
        Tabla { filas: Vec::new(), siguiente_id: 1 }
    }

    /// An unfiltered read of the whole table, in the store's natural order.
    /// It always succeeds; an empty table yields an empty sequence.
    pub fn listar(&self) -> (r: Vec<R>)
        ensures
            r@ == self.filas@,
    {
        let mut copia: Vec<R> = Vec::new();
        let largo = self.filas.len();
        let mut i: usize = 0;
        while i < largo
            invariant
                largo == self.filas@.len(),
                i <= largo,
                copia@ == self.filas@.take(i as int),
            decreases largo - i,
        {
            copia.push(self.filas[i].duplicar());
            proof {
                assert(copia@ =~= self.filas@.take(i + 1 as int));
            }
            i = i + 1;
        }
        proof {
            assert(self.filas@.take(largo as int) =~= self.filas@);
        }
        copia
    }

    /// A read of exactly one row. Zero matching rows is a store-level
    /// failure, never a default record.
    pub fn obtener(&self, id: i32) -> (r: Result<R, ErrorAlmacen>)
        requires
            self.bien_formada(),
        ensures
            r is Ok <==> self.contiene_clave(id as int),
            r matches Ok(registro) ==> registro.clave() == id as int && self.filas@.contains(
                registro,
            ),
            r matches Err(e) ==> e is FilaAusente,
    {
        let largo = self.filas.len();
        let mut i: usize = 0;
        while i < largo
            invariant
                largo == self.filas@.len(),
                i <= largo,
                forall|j: int| 0 <= j < i ==> (#[trigger] self.filas@[j]).clave() != id as int,
            decreases largo - i,
        {
            let fila = &self.filas[i];
            if fila.identificador() == id {
                let registro = fila.duplicar();
                proof {
                    assert(self.filas@[i as int] == registro);
                    assert(self.filas@.contains(registro));
                }
                return Ok(registro);
            }
            i = i + 1;
        }
        Err(ErrorAlmacen::FilaAusente)
    }

    /// Inserts the input shape; the store, never the caller, assigns the key.
    /// The generated key is not returned: the outcome is success or failure
    /// alone.
    pub fn insertar(&mut self, entrada: R::Entrada) -> (r: Result<(), ErrorAlmacen>)
        requires
            old(self).bien_formada(),
            R::entrada_valida(&entrada),
        ensures
            final(self).bien_formada(),
            Self::relacion_insercion(*old(self), *final(self), entrada, r),
    {
        if self.siguiente_id < i32::MAX {
            let id = self.siguiente_id;
            let registro = R::crear(entrada, id);
            self.filas.push(registro);
            self.siguiente_id = id + 1;
            proof {
                assert(self.filas@.drop_last() =~= old(self).filas@);
            }
            Ok(())
        } else {
            Err(ErrorAlmacen::Fallo(String::from_str("no queda ninguna clave libre")))
        }
    }

    /// Replaces the row keyed like `registro` with `registro`, field by
    /// field; nothing of the previous row survives. A key that matches no
    /// row affects zero rows and still succeeds.
    pub fn actualizar(&mut self, registro: R) -> (r: Result<u64, ErrorAlmacen>)
        requires
            old(self).bien_formada(),
            registro.valido(),
        ensures
            final(self).bien_formada(),
            Self::relacion_actualizacion(*old(self), *final(self), registro, r),
    {
        let clave_objetivo = registro.identificador();
        let largo = self.filas.len();
        let mut nuevas: Vec<R> = Vec::new();
        let mut cuenta: u64 = 0;
        let mut i: usize = 0;
        while i < largo
            invariant
                *self == *old(self),
                old(self).bien_formada(),
                registro.valido(),
                clave_objetivo as int == registro.clave(),
                largo == self.filas@.len(),
                i <= largo,
                nuevas@.len() == i as int,
                forall|j: int|
                    0 <= j < i ==> nuevas@[j] == (if old(self).filas@[j].clave()
                        == registro.clave() {
                        registro
                    } else {
                        old(self).filas@[j]
                    }),
                cuenta <= 1,
                (cuenta == 1 <==> exists|j: int|
                    0 <= j < i && (#[trigger] old(self).filas@[j]).clave() == registro.clave()),
            decreases largo - i,
        {
            let fila = &self.filas[i];
            if fila.identificador() == clave_objetivo {
                proof {
                    if cuenta == 1 {
                        let j = choose|j: int|
                            0 <= j < i && (#[trigger] old(self).filas@[j]).clave()
                                == registro.clave();
                        assert(old(self).filas@[j].clave() == old(self).filas@[i as int].clave());
                        assert(false);
                    }
                }
                nuevas.push(registro.duplicar());
                cuenta = cuenta + 1;
            } else {
                nuevas.push(fila.duplicar());
            }
            i = i + 1;
        }
        proof {
            assert(nuevas@ =~= filas_reemplazadas(old(self).filas@, registro));
        }
        self.filas = nuevas;
        Ok(cuenta)
    }

    /// Deletes by key. Deleting a key that matches no row is not
    /// distinguished from success: it affects zero rows.
    pub fn eliminar(&mut self, id: i32) -> (r: Result<u64, ErrorAlmacen>)
        requires
            old(self).bien_formada(),
        ensures
            final(self).bien_formada(),
            Self::relacion_borrado(*old(self), *final(self), id as int, r),
    {
        let largo = self.filas.len();
        let mut nuevas: Vec<R> = Vec::new();
        let mut cuenta: u64 = 0;
        let mut i: usize = 0;
        while i < largo
            invariant
                *self == *old(self),
                old(self).bien_formada(),
                largo == self.filas@.len(),
                i <= largo,
                nuevas@ == old(self).filas@.take(i as int).filter(sin_clave::<R>(id as int)),
                cuenta <= 1,
                (cuenta == 1 <==> exists|j: int|
                    0 <= j < i && (#[trigger] old(self).filas@[j]).clave() == id as int),
            decreases largo - i,
        {
            let fila = &self.filas[i];
            proof {
                reveal(Seq::filter);
                let previo = old(self).filas@.take(i as int);
                let actual = old(self).filas@.take(i + 1 as int);
                assert(actual.drop_last() =~= previo);
                assert(actual.last() == old(self).filas@[i as int]);
            }
            if fila.identificador() == id {
                proof {
                    if cuenta == 1 {
                        let j = choose|j: int|
                            0 <= j < i && (#[trigger] old(self).filas@[j]).clave() == id as int;
                        assert(old(self).filas@[j].clave() == old(self).filas@[i as int].clave());
                        assert(false);
                    }
                }
                cuenta = cuenta + 1;
            } else {
                nuevas.push(fila.duplicar());
            }
            i = i + 1;
        }
        proof {
            broadcast use vstd::seq_lib::group_filter_ensures;

            assert(old(self).filas@.take(largo as int) =~= old(self).filas@);
            lema_filtrado_claves_unicas::<R>(old(self).filas@, sin_clave::<R>(id as int));
            let filtrado = old(self).filas@.filter(sin_clave::<R>(id as int));
            assert forall|k: int| 0 <= k < filtrado.len() implies 1 <= (
            #[trigger] filtrado[k]).clave() < old(self).siguiente_id as int
                && filtrado[k].valido() by {
                assert(old(self).filas@.contains(filtrado[k]));
                let j = choose|j: int|
                    0 <= j < old(self).filas@.len() && old(self).filas@[j] == filtrado[k];
                assert(old(self).filas@[j] == filtrado[k]);
            }
            assert forall|k: int| 0 <= k < filtrado.len() implies (#[trigger] filtrado[k]).clave()
                != id as int by {
                assert(sin_clave::<R>(id as int)(filtrado[k]));
            }
        }
        self.filas = nuevas;
        Ok(cuenta)
    }
}

/// Filtering rows keeps each surviving row a row of the original sequence,
/// and keeps their keys distinct when they were distinct.
pub proof fn lema_filtrado_claves_unicas<R: Registro>(filas: Seq<R>, pred: spec_fn(R) -> bool)
    requires
        forall|i: int, j: int|
            0 <= i < j < filas.len() ==> (#[trigger] filas[i].clave()) != (
            #[trigger] filas[j].clave()),
    ensures
        forall|k: int|
            0 <= k < filas.filter(pred).len() ==> filas.contains(#[trigger] filas.filter(pred)[k]),
        forall|k: int, l: int|
            0 <= k < l < filas.filter(pred).len() ==> (#[trigger] filas.filter(pred)[k].clave())
                != (#[trigger] filas.filter(pred)[l].clave()),
    decreases filas.len(),
{
    reveal(Seq::filter);
    if filas.len() > 0 {
        let resto = filas.drop_last();
        assert(forall|i: int, j: int|
            0 <= i < j < resto.len() ==> (#[trigger] resto[i].clave()) != (
            #[trigger] resto[j].clave())) by {
            assert(forall|i: int| 0 <= i < resto.len() ==> resto[i] == filas[i]);
        }
        lema_filtrado_claves_unicas(resto, pred);
        let filtrado = filas.filter(pred);
        let filtrado_resto = resto.filter(pred);
        assert forall|k: int| 0 <= k < filtrado.len() implies filas.contains(
            #[trigger] filtrado[k],
        ) by {
            if pred(filas.last()) && k == filtrado.len() - 1 {
                assert(filas[filas.len() - 1] == filtrado[k]);
            } else {
                assert(filtrado[k] == filtrado_resto[k]);
                assert(resto.contains(filtrado_resto[k]));
                let j = choose|j: int| 0 <= j < resto.len() && resto[j] == filtrado_resto[k];
                assert(filas[j] == filtrado[k]);
            }
        }
        assert forall|k: int, l: int| 0 <= k < l < filtrado.len() implies (
        #[trigger] filtrado[k].clave()) != (#[trigger] filtrado[l].clave()) by {
            if pred(filas.last()) && l == filtrado.len() - 1 {
                assert(filtrado[l] == filas.last());
                assert(filtrado[k] == filtrado_resto[k]);
                assert(resto.contains(filtrado_resto[k]));
                let j = choose|j: int| 0 <= j < resto.len() && resto[j] == filtrado_resto[k];
                assert(filas[j] == filtrado[k]);
                assert(filas[j].clave() != filas[filas.len() - 1].clave());
            } else {
                assert(filtrado[k] == filtrado_resto[k]);
                assert(filtrado[l] == filtrado_resto[l]);
            }
        }
    }
}

/// The sequence of rows after a whole-record update with `registro`: the row
/// with the matching key is `registro` itself, every other row is unchanged.
pub open spec fn filas_reemplazadas<R: Registro>(filas: Seq<R>, registro: R) -> Seq<R> {
    Seq::new(
        filas.len(),
        |i: int|
            if filas[i].clave() == registro.clave() {
                registro
            } else {
                filas[i]
            },
    )
}

/// A sequence whose rows all satisfy the predicate is left whole by a filter.
proof fn lema_filtrado_de_conformes<R>(s: Seq<R>, pred: spec_fn(R) -> bool)
    requires
        forall|i: int| 0 <= i < s.len() ==> pred(#[trigger] s[i]),
    ensures
        s.filter(pred) == s,
    decreases s.len(),
{
    reveal(Seq::filter);
    if s.len() > 0 {
        let resto = s.drop_last();
        assert(forall|i: int| 0 <= i < resto.len() ==> pred(#[trigger] resto[i])) by {
            assert(forall|i: int| 0 <= i < resto.len() ==> resto[i] == s[i]);
        }
        lema_filtrado_de_conformes(resto, pred);
        assert(s.filter(pred) =~= s);
    } else {
        assert(s.filter(pred) =~= s);
    }
}

/// A well-formed table never already holds the key the store will assign
/// next: every insert creates its record under a fresh key.
pub proof fn ley_clave_fresca<R: Registro>(t: Tabla<R>)
    requires
        t.bien_formada(),
    ensures
        !t.contiene_clave(t.siguiente_id as int),
{
}

/// Inserting an input and then listing shows every old row unchanged,
/// followed by exactly one new record whose fields equal the input's and
/// whose key was not present before the insert.
pub proof fn ley_insercion_redonda<R: Registro>(
    pre: Tabla<R>,
    post: Tabla<R>,
    entrada: R::Entrada,
    r: Result<(), ErrorAlmacen>,
)
    requires
        pre.bien_formada(),
        pre.siguiente_id < i32::MAX,
        Tabla::relacion_insercion(pre, post, entrada, r),
    ensures
        post.filas@.len() == pre.filas@.len() + 1,
        post.filas@.drop_last() == pre.filas@,
        R::corresponde(&entrada, &post.filas@.last()),
        !pre.contiene_clave(post.filas@.last().clave()),
{
}

/// Deleting the same key twice gives the same observable outcome both times:
/// after the first delete the key is absent, and the second delete leaves
/// the table as it stands and reports zero affected rows — exactly what any
/// delete of an absent key reports.
pub proof fn ley_borrado_idempotente<R: Registro>(
    t0: Tabla<R>,
    t1: Tabla<R>,
    t2: Tabla<R>,
    id: int,
    r1: Result<u64, ErrorAlmacen>,
    r2: Result<u64, ErrorAlmacen>,
)
    requires
        Tabla::relacion_borrado(t0, t1, id, r1),
        Tabla::relacion_borrado(t1, t2, id, r2),
    ensures
        !t1.contiene_clave(id),
        t2.filas@ == t1.filas@,
        t2.siguiente_id == t1.siguiente_id,
        r2 matches Ok(n) && n == 0u64,
{
    broadcast use vstd::seq_lib::group_filter_ensures;

    lema_filtrado_de_conformes(
        t0.filas@.filter(sin_clave::<R>(id)),
        sin_clave::<R>(id),
    );
}

/// An update is a whole-record replacement, never a merge: afterwards the
/// row under the record's key is the submitted record itself, every field
/// included, and rows under other keys are untouched.
pub proof fn ley_reemplazo_completo<R: Registro>(
    pre: Tabla<R>,
    post: Tabla<R>,
    registro: R,
    r: Result<u64, ErrorAlmacen>,
    i: int,
)
    requires
        Tabla::relacion_actualizacion(pre, post, registro, r),
        0 <= i < pre.filas@.len(),
    ensures
        pre.filas@[i].clave() == registro.clave() ==> post.filas@[i] == registro,
        pre.filas@[i].clave() != registro.clave() ==> post.filas@[i] == pre.filas@[i],
{
}

} // verus!
